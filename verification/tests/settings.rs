use speech_dispatcher::event::{
    EVENT_BEGIN, EVENT_CANCEL, EVENT_END, EVENT_PAUSE, EVENT_RESUME, INDEX_MARK,
};
use speech_dispatcher::settings::{
    spelling_code, CAP_ICON, CAP_OFF, CAP_SPELL, DATA_SSML, DATA_TEXT, MODE_SINGLE, MODE_THREADED,
    NOTIFY_ALL, NOTIFY_BEGIN, NOTIFY_CANCEL, NOTIFY_END, NOTIFY_INDEX_MARKS, NOTIFY_PAUSE,
    NOTIFY_RESUME, PRIORITY_IMPORTANT, PRIORITY_MESSAGE, PRIORITY_NOTIFICATION,
    PRIORITY_PROGRESS, PRIORITY_TEXT, PUNCT_ALL, PUNCT_OFF, PUNCT_PARTIAL, SPELL_OFF, SPELL_ON,
    VOICE_CHILD_FEMALE, VOICE_CHILD_MALE, VOICE_FEMALE1, VOICE_FEMALE2, VOICE_FEMALE3,
    VOICE_MALE1, VOICE_MALE2, VOICE_MALE3,
};
use speech_dispatcher::{
    CapitalLetters, DataMode, Event, Mode, Notification, Priority, Punctuation, VoiceType,
};

#[test]
fn mode_codes() {
    assert_eq!(Mode::Single.code(), 0);
    assert_eq!(Mode::Threaded.code(), 1);
}

#[test]
fn priority_codes() {
    assert_eq!(Priority::Important.code(), 1);
    assert_eq!(Priority::Message.code(), 2);
    assert_eq!(Priority::Text.code(), 3);
    assert_eq!(Priority::Notification.code(), 4);
    assert_eq!(Priority::Progress.code(), 5);
}

#[test]
fn voice_type_codes() {
    assert_eq!(VoiceType::Male1.code(), 1);
    assert_eq!(VoiceType::Male2.code(), 2);
    assert_eq!(VoiceType::Male3.code(), 3);
    assert_eq!(VoiceType::Female1.code(), 4);
    assert_eq!(VoiceType::Female2.code(), 5);
    assert_eq!(VoiceType::Female3.code(), 6);
    assert_eq!(VoiceType::ChildMale.code(), 7);
    assert_eq!(VoiceType::ChildFemale.code(), 8);
}

#[test]
fn voice_type_is_read_back_from_its_code() {
    let all = [
        VoiceType::Male1,
        VoiceType::Male2,
        VoiceType::Male3,
        VoiceType::Female1,
        VoiceType::Female2,
        VoiceType::Female3,
        VoiceType::ChildMale,
        VoiceType::ChildFemale,
    ];
    for voice in all {
        assert_eq!(VoiceType::from_code(voice.code()), Some(voice));
    }
}

#[test]
fn codes_that_are_no_voice_type() {
    assert_eq!(VoiceType::from_code(0), None);
    assert_eq!(VoiceType::from_code(9), None);
    assert_eq!(VoiceType::from_code(u32::MAX), None);
}

#[test]
fn data_mode_codes() {
    assert_eq!(DataMode::Text.code(), 0);
    assert_eq!(DataMode::SSML.code(), 1);
}

#[test]
fn notification_codes() {
    assert_eq!(Notification::Begin.code(), 1);
    assert_eq!(Notification::End.code(), 2);
    assert_eq!(Notification::IndexMarks.code(), 4);
    assert_eq!(Notification::Cancel.code(), 8);
    assert_eq!(Notification::Pause.code(), 16);
    assert_eq!(Notification::Resume.code(), 32);
    assert_eq!(Notification::All.code(), 0x3f);
}

#[test]
fn all_notifications_are_the_six_categories_together() {
    let six = [
        Notification::Begin,
        Notification::End,
        Notification::IndexMarks,
        Notification::Cancel,
        Notification::Pause,
        Notification::Resume,
    ];
    let mut mask = 0;
    for category in six {
        mask |= category.code();
    }
    assert_eq!(mask, Notification::All.code());
}

#[test]
fn punctuation_codes() {
    assert_eq!(Punctuation::All.code(), 0);
    assert_eq!(Punctuation::Off.code(), 1);
    assert_eq!(Punctuation::Partial.code(), 2);
}

#[test]
fn capital_letters_codes() {
    assert_eq!(CapitalLetters::Off.code(), 0);
    assert_eq!(CapitalLetters::Spell.code(), 1);
    assert_eq!(CapitalLetters::Icon.code(), 2);
}

#[test]
fn spelling_codes() {
    assert_eq!(spelling_code(false), 0);
    assert_eq!(spelling_code(true), 1);
}

#[test]
fn event_codes() {
    assert_eq!(Event::Begin.code(), 0);
    assert_eq!(Event::End.code(), 1);
    assert_eq!(Event::Cancel.code(), 3);
    assert_eq!(Event::Pause.code(), 4);
    assert_eq!(Event::Resume.code(), 5);
}

#[test]
fn event_is_read_back_from_its_code() {
    for event in [Event::Begin, Event::End, Event::Cancel, Event::Pause, Event::Resume] {
        assert_eq!(Event::from_code(event.code()), Some(event));
    }
}

#[test]
fn codes_that_are_no_event() {
    assert_eq!(Event::from_code(2), None);
    assert_eq!(Event::from_code(6), None);
    assert_eq!(Event::from_code(u32::MAX), None);
}

#[test]
fn named_codes() {
    assert_eq!([MODE_SINGLE, MODE_THREADED], [0, 1]);
    assert_eq!(
        [
            PRIORITY_IMPORTANT,
            PRIORITY_MESSAGE,
            PRIORITY_TEXT,
            PRIORITY_NOTIFICATION,
            PRIORITY_PROGRESS
        ],
        [1, 2, 3, 4, 5]
    );
    assert_eq!(
        [
            VOICE_MALE1,
            VOICE_MALE2,
            VOICE_MALE3,
            VOICE_FEMALE1,
            VOICE_FEMALE2,
            VOICE_FEMALE3,
            VOICE_CHILD_MALE,
            VOICE_CHILD_FEMALE
        ],
        [1, 2, 3, 4, 5, 6, 7, 8]
    );
    assert_eq!([DATA_TEXT, DATA_SSML], [0, 1]);
    assert_eq!(
        [
            NOTIFY_BEGIN,
            NOTIFY_END,
            NOTIFY_INDEX_MARKS,
            NOTIFY_CANCEL,
            NOTIFY_PAUSE,
            NOTIFY_RESUME,
            NOTIFY_ALL
        ],
        [1, 2, 4, 8, 16, 32, 63]
    );
    assert_eq!([PUNCT_ALL, PUNCT_OFF, PUNCT_PARTIAL], [0, 1, 2]);
    assert_eq!([CAP_OFF, CAP_SPELL, CAP_ICON], [0, 1, 2]);
    assert_eq!([SPELL_OFF, SPELL_ON], [0, 1]);
    assert_eq!(
        [EVENT_BEGIN, EVENT_END, INDEX_MARK, EVENT_CANCEL, EVENT_PAUSE, EVENT_RESUME],
        [0, 1, 2, 3, 4, 5]
    );
}

#[test]
fn each_value_has_the_code_of_its_name() {
    assert_eq!(Mode::Threaded.code(), MODE_THREADED);
    assert_eq!(Priority::Progress.code(), PRIORITY_PROGRESS);
    assert_eq!(VoiceType::ChildFemale.code(), VOICE_CHILD_FEMALE);
    assert_eq!(DataMode::SSML.code(), DATA_SSML);
    assert_eq!(Notification::All.code(), NOTIFY_ALL);
    assert_eq!(Punctuation::Partial.code(), PUNCT_PARTIAL);
    assert_eq!(CapitalLetters::Icon.code(), CAP_ICON);
    assert_eq!(spelling_code(true), SPELL_ON);
    assert_eq!(Event::Resume.code(), EVENT_RESUME);
}
