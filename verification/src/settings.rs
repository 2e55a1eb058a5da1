//! The scalar settings of a connection and the codes by which the daemon's
//! client library knows them.

use vstd::prelude::*;

verus! {

/// The client library's code for the delivery mode [`Mode::Single`].
pub const MODE_SINGLE: u32 = 0;

/// The client library's code for the delivery mode [`Mode::Threaded`].
pub const MODE_THREADED: u32 = 1;

/// The client library's code for the priority [`Priority::Important`].
pub const PRIORITY_IMPORTANT: u32 = 1;

/// The client library's code for the priority [`Priority::Message`].
pub const PRIORITY_MESSAGE: u32 = 2;

/// The client library's code for the priority [`Priority::Text`].
pub const PRIORITY_TEXT: u32 = 3;

/// The client library's code for the priority [`Priority::Notification`].
pub const PRIORITY_NOTIFICATION: u32 = 4;

/// The client library's code for the priority [`Priority::Progress`].
pub const PRIORITY_PROGRESS: u32 = 5;

/// The client library's code for the symbolic voice [`VoiceType::Male1`].
pub const VOICE_MALE1: u32 = 1;

/// The client library's code for the symbolic voice [`VoiceType::Male2`].
pub const VOICE_MALE2: u32 = 2;

/// The client library's code for the symbolic voice [`VoiceType::Male3`].
pub const VOICE_MALE3: u32 = 3;

/// The client library's code for the symbolic voice [`VoiceType::Female1`].
pub const VOICE_FEMALE1: u32 = 4;

/// The client library's code for the symbolic voice [`VoiceType::Female2`].
pub const VOICE_FEMALE2: u32 = 5;

/// The client library's code for the symbolic voice [`VoiceType::Female3`].
pub const VOICE_FEMALE3: u32 = 6;

/// The client library's code for the symbolic voice [`VoiceType::ChildMale`].
pub const VOICE_CHILD_MALE: u32 = 7;

/// The client library's code for the symbolic voice [`VoiceType::ChildFemale`].
pub const VOICE_CHILD_FEMALE: u32 = 8;

/// The client library's code for the data mode [`DataMode::Text`].
pub const DATA_TEXT: u32 = 0;

/// The client library's code for the data mode [`DataMode::SSML`].
pub const DATA_SSML: u32 = 1;

/// The client library's code for the category of notification [`Notification::Begin`].
pub const NOTIFY_BEGIN: u32 = 1;

/// The client library's code for the category of notification [`Notification::End`].
pub const NOTIFY_END: u32 = 2;

/// The client library's code for the category of notification [`Notification::IndexMarks`].
pub const NOTIFY_INDEX_MARKS: u32 = 4;

/// The client library's code for the category of notification [`Notification::Cancel`].
pub const NOTIFY_CANCEL: u32 = 8;

/// The client library's code for the category of notification [`Notification::Pause`].
pub const NOTIFY_PAUSE: u32 = 16;

/// The client library's code for the category of notification [`Notification::Resume`].
pub const NOTIFY_RESUME: u32 = 32;

/// The client library's code for the category of notification [`Notification::All`].
pub const NOTIFY_ALL: u32 = 63;

/// The client library's code for the punctuation mode [`Punctuation::All`].
pub const PUNCT_ALL: u32 = 0;

/// The client library's code for the punctuation mode [`Punctuation::Off`].
pub const PUNCT_OFF: u32 = 1;

/// The client library's code for the punctuation mode [`Punctuation::Partial`].
pub const PUNCT_PARTIAL: u32 = 2;

/// The client library's code for the way to announce capital letters [`CapitalLetters::Off`].
pub const CAP_OFF: u32 = 0;

/// The client library's code for the way to announce capital letters [`CapitalLetters::Spell`].
pub const CAP_SPELL: u32 = 1;

/// The client library's code for the way to announce capital letters [`CapitalLetters::Icon`].
pub const CAP_ICON: u32 = 2;

/// The client library's code for spelling switched off.
pub const SPELL_OFF: u32 = 0;

/// The client library's code for spelling switched on.
pub const SPELL_ON: u32 = 1;

/// How the client library delivers the daemon's answers: on the calling
/// thread only, or with a thread of its own that also delivers notifications.
#[derive(Clone, Copy, Debug, PartialEq, Eq, Structural)]
pub enum Mode {
    Single,
    Threaded,
}

impl Mode {
    /// No two modes share a code.
    pub proof fn lemma_codes_differ(a: Mode, b: Mode)
        ensures
            a.spec_code() == b.spec_code() ==> a == b,
    {
    }

    /// The code of this mode in the client library.
    pub open spec fn spec_code(self) -> u32 {
        match self {
            Mode::Single => MODE_SINGLE,
            Mode::Threaded => MODE_THREADED,
        }
    }

    /// The code of this mode in the client library.
    #[verifier::when_used_as_spec(spec_code)]
    pub fn code(self) -> (c: u32)
        ensures
            c == self.spec_code(),
    {
        match self {
            Mode::Single => MODE_SINGLE,
            Mode::Threaded => MODE_THREADED,
        }
    }
}

/// The priority class of a message, from the most to the least urgent. The
/// daemon orders its queue by it.
#[derive(Clone, Copy, Debug, PartialEq, Eq, Structural)]
pub enum Priority {
    Important,
    Message,
    Text,
    Notification,
    Progress,
}

impl Priority {
    /// No two priorities share a code.
    pub proof fn lemma_codes_differ(a: Priority, b: Priority)
        ensures
            a.spec_code() == b.spec_code() ==> a == b,
    {
    }

    /// The code of this priority in the client library.
    pub open spec fn spec_code(self) -> u32 {
        match self {
            Priority::Important => PRIORITY_IMPORTANT,
            Priority::Message => PRIORITY_MESSAGE,
            Priority::Text => PRIORITY_TEXT,
            Priority::Notification => PRIORITY_NOTIFICATION,
            Priority::Progress => PRIORITY_PROGRESS,
        }
    }

    /// The code of this priority in the client library.
    #[verifier::when_used_as_spec(spec_code)]
    pub fn code(self) -> (c: u32)
        ensures
            c == self.spec_code(),
    {
        match self {
            Priority::Important => PRIORITY_IMPORTANT,
            Priority::Message => PRIORITY_MESSAGE,
            Priority::Text => PRIORITY_TEXT,
            Priority::Notification => PRIORITY_NOTIFICATION,
            Priority::Progress => PRIORITY_PROGRESS,
        }
    }
}

/// The symbolic voices that every output module offers.
#[derive(Clone, Copy, Debug, PartialEq, Eq, Structural)]
pub enum VoiceType {
    Male1,
    Male2,
    Male3,
    Female1,
    Female2,
    Female3,
    ChildMale,
    ChildFemale,
}

impl VoiceType {
    /// No two voice types share a code.
    pub proof fn lemma_codes_differ(a: VoiceType, b: VoiceType)
        ensures
            a.spec_code() == b.spec_code() ==> a == b,
    {
    }

    /// The code of this voice type in the client library.
    pub open spec fn spec_code(self) -> u32 {
        match self {
            VoiceType::Male1 => VOICE_MALE1,
            VoiceType::Male2 => VOICE_MALE2,
            VoiceType::Male3 => VOICE_MALE3,
            VoiceType::Female1 => VOICE_FEMALE1,
            VoiceType::Female2 => VOICE_FEMALE2,
            VoiceType::Female3 => VOICE_FEMALE3,
            VoiceType::ChildMale => VOICE_CHILD_MALE,
            VoiceType::ChildFemale => VOICE_CHILD_FEMALE,
        }
    }

    /// The voice type that a code stands for, if it stands for one.
    pub open spec fn spec_from_code(code: u32) -> Option<VoiceType> {
        if code == VOICE_MALE1 {
            Some(VoiceType::Male1)
        } else if code == VOICE_MALE2 {
            Some(VoiceType::Male2)
        } else if code == VOICE_MALE3 {
            Some(VoiceType::Male3)
        } else if code == VOICE_FEMALE1 {
            Some(VoiceType::Female1)
        } else if code == VOICE_FEMALE2 {
            Some(VoiceType::Female2)
        } else if code == VOICE_FEMALE3 {
            Some(VoiceType::Female3)
        } else if code == VOICE_CHILD_MALE {
            Some(VoiceType::ChildMale)
        } else if code == VOICE_CHILD_FEMALE {
            Some(VoiceType::ChildFemale)
        } else {
            None
        }
    }

    /// The code of this voice type in the client library.
    #[verifier::when_used_as_spec(spec_code)]
    pub fn code(self) -> (c: u32)
        ensures
            c == self.spec_code(),
    {
        match self {
            VoiceType::Male1 => VOICE_MALE1,
            VoiceType::Male2 => VOICE_MALE2,
            VoiceType::Male3 => VOICE_MALE3,
            VoiceType::Female1 => VOICE_FEMALE1,
            VoiceType::Female2 => VOICE_FEMALE2,
            VoiceType::Female3 => VOICE_FEMALE3,
            VoiceType::ChildMale => VOICE_CHILD_MALE,
            VoiceType::ChildFemale => VOICE_CHILD_FEMALE,
        }
    }

    /// Reads the voice type that the daemon reports. A code that stands for no
    /// voice type gives `None`; otherwise the result is the one voice type
    /// with that code.
    #[verifier::when_used_as_spec(spec_from_code)]
    pub fn from_code(code: u32) -> (voice: Option<VoiceType>)
        ensures
            voice == VoiceType::spec_from_code(code),
            voice matches Some(v) ==> v.spec_code() == code,
            voice is None <==> !(VOICE_MALE1 <= code <= VOICE_CHILD_FEMALE),
    {
        if code == VOICE_MALE1 {
            Some(VoiceType::Male1)
        } else if code == VOICE_MALE2 {
            Some(VoiceType::Male2)
        } else if code == VOICE_MALE3 {
            Some(VoiceType::Male3)
        } else if code == VOICE_FEMALE1 {
            Some(VoiceType::Female1)
        } else if code == VOICE_FEMALE2 {
            Some(VoiceType::Female2)
        } else if code == VOICE_FEMALE3 {
            Some(VoiceType::Female3)
        } else if code == VOICE_CHILD_MALE {
            Some(VoiceType::ChildMale)
        } else if code == VOICE_CHILD_FEMALE {
            Some(VoiceType::ChildFemale)
        } else {
            None
        }
    }

    /// Every voice type is read back from its own code.
    pub proof fn lemma_code_round_trip(voice: VoiceType)
        ensures
            VoiceType::spec_from_code(voice.spec_code()) == Some(voice),
    {
    }
}

/// Whether the text of a message is plain or carries speech markup.
#[derive(Clone, Copy, Debug, PartialEq, Eq, Structural)]
pub enum DataMode {
    Text,
    SSML,
}

impl DataMode {
    /// No two data modes share a code.
    pub proof fn lemma_codes_differ(a: DataMode, b: DataMode)
        ensures
            a.spec_code() == b.spec_code() ==> a == b,
    {
    }

    /// The code of this data mode in the client library.
    pub open spec fn spec_code(self) -> u32 {
        match self {
            DataMode::Text => DATA_TEXT,
            DataMode::SSML => DATA_SSML,
        }
    }

    /// The code of this data mode in the client library.
    #[verifier::when_used_as_spec(spec_code)]
    pub fn code(self) -> (c: u32)
        ensures
            c == self.spec_code(),
    {
        match self {
            DataMode::Text => DATA_TEXT,
            DataMode::SSML => DATA_SSML,
        }
    }
}

/// The categories of notification that a connection can switch on and off.
/// Each category is one bit, and `All` is the six bits together.
#[derive(Clone, Copy, Debug, PartialEq, Eq, Structural)]
pub enum Notification {
    Begin,
    End,
    IndexMarks,
    Cancel,
    Pause,
    Resume,
    All,
}

impl Notification {
    /// No two categories share a code.
    pub proof fn lemma_codes_differ(a: Notification, b: Notification)
        ensures
            a.spec_code() == b.spec_code() ==> a == b,
    {
    }

    /// The bit mask of this category in the client library.
    pub open spec fn spec_code(self) -> u32 {
        match self {
            Notification::Begin => NOTIFY_BEGIN,
            Notification::End => NOTIFY_END,
            Notification::IndexMarks => NOTIFY_INDEX_MARKS,
            Notification::Cancel => NOTIFY_CANCEL,
            Notification::Pause => NOTIFY_PAUSE,
            Notification::Resume => NOTIFY_RESUME,
            Notification::All => NOTIFY_ALL,
        }
    }

    /// `All` is the six categories together, and each of the six shares no
    /// bit with the other five.
    pub proof fn lemma_all_categories()
        ensures
            Notification::All.spec_code() == Notification::Begin.spec_code()
                | Notification::End.spec_code() | Notification::IndexMarks.spec_code()
                | Notification::Cancel.spec_code() | Notification::Pause.spec_code()
                | Notification::Resume.spec_code(),
            forall|category: Notification|
                category != Notification::All ==> #[trigger] category.spec_code()
                    & (Notification::All.spec_code() - category.spec_code()) as u32 == 0,
    {
        assert(63u32 == 1u32 | 2u32 | 4u32 | 8u32 | 16u32 | 32u32) by (bit_vector);
        assert(1u32 & 62u32 == 0) by (bit_vector);
        assert(2u32 & 61u32 == 0) by (bit_vector);
        assert(4u32 & 59u32 == 0) by (bit_vector);
        assert(8u32 & 55u32 == 0) by (bit_vector);
        assert(16u32 & 47u32 == 0) by (bit_vector);
        assert(32u32 & 31u32 == 0) by (bit_vector);
    }

    /// The bit mask of this category in the client library.
    #[verifier::when_used_as_spec(spec_code)]
    pub fn code(self) -> (c: u32)
        ensures
            c == self.spec_code(),
    {
        match self {
            Notification::Begin => NOTIFY_BEGIN,
            Notification::End => NOTIFY_END,
            Notification::IndexMarks => NOTIFY_INDEX_MARKS,
            Notification::Cancel => NOTIFY_CANCEL,
            Notification::Pause => NOTIFY_PAUSE,
            Notification::Resume => NOTIFY_RESUME,
            Notification::All => NOTIFY_ALL,
        }
    }
}

/// How much punctuation the synthesizer speaks.
#[derive(Clone, Copy, Debug, PartialEq, Eq, Structural)]
pub enum Punctuation {
    /// Every punctuation character is spoken.
    All,
    /// No punctuation character is spoken.
    Off,
    /// The characters that the daemon's configuration selects are spoken.
    Partial,
}

impl Punctuation {
    /// No two punctuation modes share a code.
    pub proof fn lemma_codes_differ(a: Punctuation, b: Punctuation)
        ensures
            a.spec_code() == b.spec_code() ==> a == b,
    {
    }

    /// The code of this punctuation mode in the client library.
    pub open spec fn spec_code(self) -> u32 {
        match self {
            Punctuation::All => PUNCT_ALL,
            Punctuation::Off => PUNCT_OFF,
            Punctuation::Partial => PUNCT_PARTIAL,
        }
    }

    /// The code of this punctuation mode in the client library.
    #[verifier::when_used_as_spec(spec_code)]
    pub fn code(self) -> (c: u32)
        ensures
            c == self.spec_code(),
    {
        match self {
            Punctuation::All => PUNCT_ALL,
            Punctuation::Off => PUNCT_OFF,
            Punctuation::Partial => PUNCT_PARTIAL,
        }
    }
}

/// How capital letters are announced: not at all, by spelling, or by a sound.
#[derive(Clone, Copy, Debug, PartialEq, Eq, Structural)]
pub enum CapitalLetters {
    /// Capital letters are not announced.
    Off,
    /// Capital letters are spelled.
    Spell,
    /// A sound marks a capital letter.
    Icon,
}

impl CapitalLetters {
    /// No two modes share a code.
    pub proof fn lemma_codes_differ(a: CapitalLetters, b: CapitalLetters)
        ensures
            a.spec_code() == b.spec_code() ==> a == b,
    {
    }

    /// The code of this mode in the client library.
    pub open spec fn spec_code(self) -> u32 {
        match self {
            CapitalLetters::Off => CAP_OFF,
            CapitalLetters::Spell => CAP_SPELL,
            CapitalLetters::Icon => CAP_ICON,
        }
    }

    /// The code of this mode in the client library.
    #[verifier::when_used_as_spec(spec_code)]
    pub fn code(self) -> (c: u32)
        ensures
            c == self.spec_code(),
    {
        match self {
            CapitalLetters::Off => CAP_OFF,
            CapitalLetters::Spell => CAP_SPELL,
            CapitalLetters::Icon => CAP_ICON,
        }
    }
}

/// The client library's code for spelling mode switched on or off.
pub open spec fn spec_spelling_code(spelling: bool) -> u32 {
    if spelling {
        SPELL_ON
    } else {
        SPELL_OFF
    }
}

/// The client library's code for the spelling toggle.
#[verifier::when_used_as_spec(spec_spelling_code)]
pub fn spelling_code(spelling: bool) -> (c: u32)
    ensures
        c == spec_spelling_code(spelling),
{
    if spelling {
        SPELL_ON
    } else {
        SPELL_OFF
    }
}

} // verus!
