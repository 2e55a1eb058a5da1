//! A connection to the daemon, seen from this side of the client library.
//!
//! A [`Connection`] knows the identifier under which the daemon knows it and
//! whether its session was released. Each operation names the call that is to
//! be made on the client library. What the call hands back is read as follows:
//!
//! - the status of a command or of a setting by [`crate::reply::i32_to_bool`];
//! - the status of a key, a character or a sound icon by
//!   [`crate::reply::submitted`], that of a text by
//!   [`crate::reply::message_id`], and that of a format by
//!   [`crate::reply::formatted_message_id`];
//! - the code of the symbolic voice by
//!   [`crate::settings::VoiceType::from_code`];
//! - the reply to [`Connection::discovery`] by [`Connection::setup`].
//!
//! The rate, the pitch, the volume, the language and the reply to a line of
//! the protocol are the caller's as they come.

use vstd::prelude::*;
use vstd::utf8::encode_utf8;
use crate::discovery::{client_id_of, parse_client_id, NO_CLIENT_ID};
use crate::event::{Event, UnknownEvent, INDEX_MARK};
use crate::registry::{
    delivery, mark_delivery, registered, registered_index_mark, Callbacks, Invocation,
    MarkInvocation, Registry,
};
use crate::request::{Request, RequestView, Target};
use crate::settings::{
    spec_spelling_code, spelling_code, CapitalLetters, DataMode, Mode, Notification, Priority,
    Punctuation, VoiceType,
};
use crate::text::holds_nul;

verus! {

/// The client library's code for a reply that is waited for.
pub const WAIT_REPLY: i32 = 1;

/// The client library's code for a reply that is not read.
pub const NO_REPLY: i32 = 0;

/// One connection to the daemon: the identifier under which the daemon knows
/// it, and whether its session is still there. The session itself is with
/// whoever makes the calls.
#[derive(Debug)]
pub struct Connection {
    client_id: u64,
    open: bool,
}

/// The client identifier that the daemon's answer to [`Connection::discovery`]
/// gives. Without an answer, and with one that does not have the expected
/// form, it is [`NO_CLIENT_ID`].
pub open spec fn resolved_client_id(reply: Option<&str>) -> u64 {
    match reply {
        Some(text) => client_id_of(encode_utf8(text@)),
        None => NO_CLIENT_ID,
    }
}

/// The call that hands `text` over for speaking, or none where there is
/// nothing to say.
pub open spec fn submission(text: Seq<char>, request: RequestView) -> Option<RequestView> {
    if text.len() == 0 {
        None
    } else {
        Some(request)
    }
}

/// The view of a call that may be there or not.
pub open spec fn view_of(request: Option<Request>) -> Option<RequestView> {
    match request {
        Some(r) => Some(r@),
        None => None,
    }
}

impl Connection {
    /// The identifier under which the daemon knows this connection.
    pub closed spec fn spec_client_id(&self) -> u64 {
        self.client_id
    }

    /// Whether the session of this connection has not been released yet. A
    /// connection that is closed makes no calls any more.
    pub closed spec fn spec_is_open(&self) -> bool {
        self.open
    }

    /// This connection once it is closed: it keeps its identifier.
    pub closed spec fn closed(self) -> Connection {
        Connection { client_id: self.client_id, open: false }
    }

    /// The call that closing this connection hands back: the release of the
    /// session, unless it was released before.
    pub open spec fn release(self) -> Option<RequestView> {
        if self.spec_is_open() {
            Some(RequestView::Close)
        } else {
            None
        }
    }

    /// The entries of a registry after this connection was closed.
    pub open spec fn entries_after_close<H, M>(self, entries: Map<u64, Callbacks<H, M>>) -> Map<
        u64,
        Callbacks<H, M>,
    > {
        if self.spec_is_open() {
            entries.remove(self.spec_client_id())
        } else {
            entries
        }
    }

    /// The identifier under which the daemon knows this connection. It is
    /// the key of the connection's handlers and never changes.
    #[verifier::when_used_as_spec(spec_client_id)]
    pub fn client_id(&self) -> (id: u64)
        ensures
            id == self.spec_client_id(),
    {
        self.client_id
    }

    /// Whether the session of this connection has not been released yet.
    #[verifier::when_used_as_spec(spec_is_open)]
    pub fn is_open(&self) -> (open: bool)
        ensures
            open == self.spec_is_open(),
    {
        self.open
    }

    /// The call that opens a session at the daemon's default address.
    pub fn open(client_name: &str, connection_name: &str, user_name: &str, mode: Mode) -> (request:
        Request)
        requires
            !holds_nul(client_name@),
            !holds_nul(connection_name@),
            !holds_nul(user_name@),
        ensures
            request@ == (RequestView::Open {
                client_name: client_name@,
                connection_name: connection_name@,
                user_name: user_name@,
                mode: mode.spec_code(),
            }),
    {
        Request::Open {
            client_name: client_name.to_owned(),
            connection_name: connection_name.to_owned(),
            user_name: user_name.to_owned(),
            mode: mode.code(),
        }
    }

    /// The call that opens a session at an address that the caller hands to
    /// the client library together with this request. With `autospawn` the
    /// client library may start the daemon where none is running.
    pub fn open2(
        client_name: &str,
        connection_name: &str,
        user_name: &str,
        mode: Mode,
        autospawn: bool,
    ) -> (request: Request)
        requires
            !holds_nul(client_name@),
            !holds_nul(connection_name@),
            !holds_nul(user_name@),
        ensures
            request@ == (RequestView::Open2 {
                client_name: client_name@,
                connection_name: connection_name@,
                user_name: user_name@,
                mode: mode.spec_code(),
                autospawn: if autospawn {
                    1i32
                } else {
                    0i32
                },
            }),
    {
        let auto_spawn: i32 = if autospawn {
            1
        } else {
            0
        };
        Request::Open2 {
            client_name: client_name.to_owned(),
            connection_name: connection_name.to_owned(),
            user_name: user_name.to_owned(),
            mode: mode.code(),
            autospawn: auto_spawn,
        }
    }

    /// The call that a session makes first: it asks the daemon for the
    /// session's own entry in the history of clients, and waits for the reply.
    pub fn discovery() -> (request: Request)
        ensures
            request@ == (RequestView::SendData {
                data: "HISTORY GET CLIENT_ID\r\n"@,
                wait_for_reply: WAIT_REPLY,
            }),
    {
        Request::SendData {
            data: "HISTORY GET CLIENT_ID\r\n".to_owned(),
            wait_for_reply: WAIT_REPLY,
        }
    }

    /// Sets a connection up from the daemon's reply to [`Connection::discovery`].
    ///
    /// The connection is open and has the identifier that the reply gives, or
    /// [`NO_CLIENT_ID`]. It gets an entry without handlers in `registry`, in
    /// place of any entry that the identifier had. The request that comes
    /// back switches every category of notification on.
    pub fn setup<H, M>(reply: Option<&str>, registry: &mut Registry<H, M>) -> (opened: (
        Connection,
        Request,
    ))
        ensures
            opened.0.spec_is_open(),
            opened.0.spec_client_id() == resolved_client_id(reply),
            final(registry)@ == old(registry)@.insert(
                resolved_client_id(reply),
                Callbacks::spec_new(),
            ),
            opened.1@ == RequestView::SetNotificationOn(Notification::All.spec_code()),
    {
        let client_id: u64 = match reply {
            Some(text) => parse_client_id(text.as_bytes()),
            None => NO_CLIENT_ID,
        };
        registry.register(client_id);
        let connection = Connection { client_id, open: true };
        (connection, Request::SetNotificationOn(Notification::All.code()))
    }

    /// Closes the connection: its entry leaves `registry`, and the call that
    /// releases the session comes back. A connection that is closed already
    /// stays as it is, the registry too, and no call comes back: a session is
    /// released once.
    pub fn close<H, M>(&mut self, registry: &mut Registry<H, M>) -> (release: Option<Request>)
        ensures
            *final(self) == old(self).closed(),
            !final(self).spec_is_open(),
            final(self).spec_client_id() == old(self).spec_client_id(),
            view_of(release) == old(self).release(),
            final(registry)@ == old(self).entries_after_close(old(registry)@),
    {
        if self.open {
            self.open = false;
            registry.unregister(self.client_id);
            Some(Request::Close)
        } else {
            None
        }
    }

    /// The call that queues `text` for speaking with the given priority. Empty
    /// text is not sent: there is nothing to say, and no call comes back.
    pub fn say(&self, priority: Priority, text: &str) -> (request: Option<Request>)
        requires
            self.spec_is_open(),
            !holds_nul(text@),
        ensures
            view_of(request) == submission(
                text@,
                RequestView::Say { priority: priority.spec_code(), text: text@ },
            ),
    {
        if text.is_empty() {
            None
        } else {
            Some(Request::Say { priority: priority.code(), text: text.to_owned() })
        }
    }

    /// The call that queues `format` for speaking with the given priority. The
    /// client library reads the text as a format, and no arguments follow it.
    /// Empty text is not sent: there is nothing to say, and no call comes
    /// back.
    pub fn sayf(&self, priority: Priority, format: &str) -> (request: Option<Request>)
        requires
            self.spec_is_open(),
            !holds_nul(format@),
        ensures
            view_of(request) == submission(
                format@,
                RequestView::Sayf { priority: priority.spec_code(), format: format@ },
            ),
    {
        if format.is_empty() {
            None
        } else {
            Some(Request::Sayf { priority: priority.code(), format: format.to_owned() })
        }
    }

    /// The call that stops the message of this connection that is being spoken.
    pub fn stop(&self) -> (request: Request)
        requires
            self.spec_is_open(),
        ensures
            request@ == RequestView::Stop(Target::Own),
    {
        Request::Stop(Target::Own)
    }

    /// The call that stops the messages of all clients that are being spoken.
    pub fn stop_all(&self) -> (request: Request)
        requires
            self.spec_is_open(),
        ensures
            request@ == RequestView::Stop(Target::All),
    {
        Request::Stop(Target::All)
    }

    /// The call that stops the message of the client `target_uid` that is being spoken.
    pub fn stop_uid(&self, target_uid: i32) -> (request: Request)
        requires
            self.spec_is_open(),
        ensures
            request@ == RequestView::Stop(Target::Uid(target_uid)),
    {
        Request::Stop(Target::Uid(target_uid))
    }

    /// The call that discards the messages of this connection, spoken and queued.
    pub fn cancel(&self) -> (request: Request)
        requires
            self.spec_is_open(),
        ensures
            request@ == RequestView::Cancel(Target::Own),
    {
        Request::Cancel(Target::Own)
    }

    /// The call that discards the messages of all clients.
    pub fn cancel_all(&self) -> (request: Request)
        requires
            self.spec_is_open(),
        ensures
            request@ == RequestView::Cancel(Target::All),
    {
        Request::Cancel(Target::All)
    }

    /// The call that discards the messages of the client `target_uid`.
    pub fn cancel_uid(&self, target_uid: i32) -> (request: Request)
        requires
            self.spec_is_open(),
        ensures
            request@ == RequestView::Cancel(Target::Uid(target_uid)),
    {
        Request::Cancel(Target::Uid(target_uid))
    }

    /// The call that pauses the speech of this connection.
    pub fn pause(&self) -> (request: Request)
        requires
            self.spec_is_open(),
        ensures
            request@ == RequestView::Pause(Target::Own),
    {
        Request::Pause(Target::Own)
    }

    /// The call that pauses the speech of all clients.
    pub fn pause_all(&self) -> (request: Request)
        requires
            self.spec_is_open(),
        ensures
            request@ == RequestView::Pause(Target::All),
    {
        Request::Pause(Target::All)
    }

    /// The call that pauses the speech of the client `target_uid`.
    pub fn pause_uid(&self, target_uid: i32) -> (request: Request)
        requires
            self.spec_is_open(),
        ensures
            request@ == RequestView::Pause(Target::Uid(target_uid)),
    {
        Request::Pause(Target::Uid(target_uid))
    }

    /// The call that takes up the paused speech of this connection.
    pub fn resume(&self) -> (request: Request)
        requires
            self.spec_is_open(),
        ensures
            request@ == RequestView::Resume(Target::Own),
    {
        Request::Resume(Target::Own)
    }

    /// The call that takes up the paused speech of all clients.
    pub fn resume_all(&self) -> (request: Request)
        requires
            self.spec_is_open(),
        ensures
            request@ == RequestView::Resume(Target::All),
    {
        Request::Resume(Target::All)
    }

    /// The call that takes up the paused speech of the client `target_uid`.
    pub fn resume_uid(&self, target_uid: i32) -> (request: Request)
        requires
            self.spec_is_open(),
        ensures
            request@ == RequestView::Resume(Target::Uid(target_uid)),
    {
        Request::Resume(Target::Uid(target_uid))
    }

    /// The call that speaks the name of a key. Empty text is not sent: there
    /// is nothing to say, and no call comes back.
    pub fn key(&self, priority: Priority, key_name: &str) -> (request: Option<Request>)
        requires
            self.spec_is_open(),
            !holds_nul(key_name@),
        ensures
            view_of(request) == submission(
                key_name@,
                RequestView::Key { priority: priority.spec_code(), key_name: key_name@ },
            ),
    {
        if key_name.is_empty() {
            None
        } else {
            Some(Request::Key { priority: priority.code(), key_name: key_name.to_owned() })
        }
    }

    /// The call that spells one character, given as text. Empty text is not
    /// sent: there is nothing to say, and no call comes back.
    pub fn char(&self, priority: Priority, char: &str) -> (request: Option<Request>)
        requires
            self.spec_is_open(),
            !holds_nul(char@),
        ensures
            view_of(request) == submission(
                char@,
                RequestView::Char { priority: priority.spec_code(), character: char@ },
            ),
    {
        if char.is_empty() {
            None
        } else {
            Some(Request::Char { priority: priority.code(), character: char.to_owned() })
        }
    }

    /// The call that spells the character with the code `wchar`.
    pub fn wchar(&self, priority: Priority, wchar: i32) -> (request: Request)
        requires
            self.spec_is_open(),
        ensures
            request@ == (RequestView::WChar { priority: priority.spec_code(), wchar }),
    {
        Request::WChar { priority: priority.code(), wchar }
    }

    /// The call that plays the sound icon of the given name. Empty text is not
    /// sent: there is nothing to say, and no call comes back.
    pub fn sound_icon(&self, priority: Priority, icon_name: &str) -> (request: Option<Request>)
        requires
            self.spec_is_open(),
            !holds_nul(icon_name@),
        ensures
            view_of(request) == submission(
                icon_name@,
                RequestView::SoundIcon { priority: priority.spec_code(), icon_name: icon_name@ },
            ),
    {
        if icon_name.is_empty() {
            None
        } else {
            Some(Request::SoundIcon { priority: priority.code(), icon_name: icon_name.to_owned() })
        }
    }

    /// The call that sets the symbolic voice of this connection.
    pub fn set_voice_type(&self, voice_type: VoiceType) -> (request: Request)
        requires
            self.spec_is_open(),
        ensures
            request@ == RequestView::SetVoiceType(Target::Own, voice_type.spec_code()),
    {
        Request::SetVoiceType(Target::Own, voice_type.code())
    }

    /// The call that sets the symbolic voice of all clients.
    pub fn set_voice_type_all(&self, voice_type: VoiceType) -> (request: Request)
        requires
            self.spec_is_open(),
        ensures
            request@ == RequestView::SetVoiceType(Target::All, voice_type.spec_code()),
    {
        Request::SetVoiceType(Target::All, voice_type.code())
    }

    /// The call that sets the symbolic voice of the client `target_uid`.
    pub fn set_voice_type_uid(&self, voice_type: VoiceType, target_uid: u32) -> (request: Request)
        requires
            self.spec_is_open(),
        ensures
            request@ == RequestView::SetVoiceType(Target::Uid(target_uid), voice_type.spec_code()),
    {
        Request::SetVoiceType(Target::Uid(target_uid), voice_type.code())
    }

    /// The call that asks the daemon for the symbolic voice of this
    /// connection. The daemon is asked each time: nothing is kept on this
    /// side.
    pub fn get_voice_type(&self) -> (request: Request)
        requires
            self.spec_is_open(),
        ensures
            request@ == RequestView::GetVoiceType,
    {
        Request::GetVoiceType
    }

    /// The call that sets the synthesis voice, by its name, of this
    /// connection.
    pub fn set_synthesis_voice(&self, voice_name: &str) -> (request: Request)
        requires
            self.spec_is_open(),
            !holds_nul(voice_name@),
        ensures
            request@ == RequestView::SetSynthesisVoice(Target::Own, voice_name@),
    {
        Request::SetSynthesisVoice(Target::Own, voice_name.to_owned())
    }

    /// The call that sets the synthesis voice, by its name, of all clients.
    pub fn set_synthesis_voice_all(&self, voice_name: &str) -> (request: Request)
        requires
            self.spec_is_open(),
            !holds_nul(voice_name@),
        ensures
            request@ == RequestView::SetSynthesisVoice(Target::All, voice_name@),
    {
        Request::SetSynthesisVoice(Target::All, voice_name.to_owned())
    }

    /// The call that sets the synthesis voice, by its name, of the client
    /// `target_uid`.
    pub fn set_synthesis_voice_uid(&self, voice_name: &str, target_uid: u32) -> (request: Request)
        requires
            self.spec_is_open(),
            !holds_nul(voice_name@),
        ensures
            request@ == RequestView::SetSynthesisVoice(Target::Uid(target_uid), voice_name@),
    {
        Request::SetSynthesisVoice(Target::Uid(target_uid), voice_name.to_owned())
    }

    /// The call that sets whether the text of messages is plain or marked up.
    pub fn set_data_mode(&self, mode: DataMode) -> (request: Request)
        requires
            self.spec_is_open(),
        ensures
            request@ == RequestView::SetDataMode(mode.spec_code()),
    {
        Request::SetDataMode(mode.code())
    }

    /// The call that switches a category of notification on.
    pub fn set_notification_on(&self, notification: Notification) -> (request: Request)
        requires
            self.spec_is_open(),
        ensures
            request@ == RequestView::SetNotificationOn(notification.spec_code()),
    {
        Request::SetNotificationOn(notification.code())
    }

    /// The call that switches a category of notification off.
    pub fn set_notification_off(&self, notification: Notification) -> (request: Request)
        requires
            self.spec_is_open(),
        ensures
            request@ == RequestView::SetNotificationOff(notification.spec_code()),
    {
        Request::SetNotificationOff(notification.code())
    }

    /// The call that sets a category of notification to the state that
    /// `state` names in the daemon's own words.
    pub fn set_notification(&self, notification: Notification, state: &str) -> (request: Request)
        requires
            self.spec_is_open(),
            !holds_nul(state@),
        ensures
            request@ == RequestView::SetNotification(notification.spec_code(), state@),
    {
        Request::SetNotification(notification.code(), state.to_owned())
    }

    /// The call that sets the rate of speech of this connection.
    pub fn set_voice_rate(&self, rate: i32) -> (request: Request)
        requires
            self.spec_is_open(),
        ensures
            request@ == RequestView::SetVoiceRate(Target::Own, rate),
    {
        Request::SetVoiceRate(Target::Own, rate)
    }

    /// The call that sets the rate of speech of all clients.
    pub fn set_voice_rate_all(&self, rate: i32) -> (request: Request)
        requires
            self.spec_is_open(),
        ensures
            request@ == RequestView::SetVoiceRate(Target::All, rate),
    {
        Request::SetVoiceRate(Target::All, rate)
    }

    /// The call that sets the rate of speech of the client `target_uid`.
    pub fn set_voice_rate_uid(&self, rate: i32, target_uid: u32) -> (request: Request)
        requires
            self.spec_is_open(),
        ensures
            request@ == RequestView::SetVoiceRate(Target::Uid(target_uid), rate),
    {
        Request::SetVoiceRate(Target::Uid(target_uid), rate)
    }

    /// The call that asks the daemon for the rate of speech of this
    /// connection. The daemon is asked each time: nothing is kept on this
    /// side.
    pub fn get_voice_rate(&self) -> (request: Request)
        requires
            self.spec_is_open(),
        ensures
            request@ == RequestView::GetVoiceRate,
    {
        Request::GetVoiceRate
    }

    /// The call that sets the pitch of the voice of this connection.
    pub fn set_voice_pitch(&self, pitch: i32) -> (request: Request)
        requires
            self.spec_is_open(),
        ensures
            request@ == RequestView::SetVoicePitch(Target::Own, pitch),
    {
        Request::SetVoicePitch(Target::Own, pitch)
    }

    /// The call that sets the pitch of the voice of all clients.
    pub fn set_voice_pitch_all(&self, pitch: i32) -> (request: Request)
        requires
            self.spec_is_open(),
        ensures
            request@ == RequestView::SetVoicePitch(Target::All, pitch),
    {
        Request::SetVoicePitch(Target::All, pitch)
    }

    /// The call that sets the pitch of the voice of the client `target_uid`.
    pub fn set_voice_pitch_uid(&self, pitch: i32, target_uid: u32) -> (request: Request)
        requires
            self.spec_is_open(),
        ensures
            request@ == RequestView::SetVoicePitch(Target::Uid(target_uid), pitch),
    {
        Request::SetVoicePitch(Target::Uid(target_uid), pitch)
    }

    /// The call that asks the daemon for the pitch of the voice of this
    /// connection. The daemon is asked each time: nothing is kept on this
    /// side.
    pub fn get_voice_pitch(&self) -> (request: Request)
        requires
            self.spec_is_open(),
        ensures
            request@ == RequestView::GetVoicePitch,
    {
        Request::GetVoicePitch
    }

    /// The call that sets the volume of this connection.
    pub fn set_volume(&self, volume: i32) -> (request: Request)
        requires
            self.spec_is_open(),
        ensures
            request@ == RequestView::SetVolume(Target::Own, volume),
    {
        Request::SetVolume(Target::Own, volume)
    }

    /// The call that sets the volume of all clients.
    pub fn set_volume_all(&self, volume: i32) -> (request: Request)
        requires
            self.spec_is_open(),
        ensures
            request@ == RequestView::SetVolume(Target::All, volume),
    {
        Request::SetVolume(Target::All, volume)
    }

    /// The call that sets the volume of the client `target_uid`.
    pub fn set_volume_uid(&self, volume: i32, target_uid: u32) -> (request: Request)
        requires
            self.spec_is_open(),
        ensures
            request@ == RequestView::SetVolume(Target::Uid(target_uid), volume),
    {
        Request::SetVolume(Target::Uid(target_uid), volume)
    }

    /// The call that asks the daemon for the volume of this connection. The
    /// daemon is asked each time: nothing is kept on this side.
    pub fn get_volume(&self) -> (request: Request)
        requires
            self.spec_is_open(),
        ensures
            request@ == RequestView::GetVolume,
    {
        Request::GetVolume
    }

    /// The call that sets how much punctuation is spoken in the messages of
    /// this connection.
    pub fn set_punctuation(&self, punctuation: Punctuation) -> (request: Request)
        requires
            self.spec_is_open(),
        ensures
            request@ == RequestView::SetPunctuation(Target::Own, punctuation.spec_code()),
    {
        Request::SetPunctuation(Target::Own, punctuation.code())
    }

    /// The call that sets how much punctuation is spoken in the messages of
    /// all clients.
    pub fn set_punctuation_all(&self, punctuation: Punctuation) -> (request: Request)
        requires
            self.spec_is_open(),
        ensures
            request@ == RequestView::SetPunctuation(Target::All, punctuation.spec_code()),
    {
        Request::SetPunctuation(Target::All, punctuation.code())
    }

    /// The call that sets how much punctuation is spoken in the messages of
    /// the client `target_uid`.
    pub fn set_punctuation_uid(
        &self,
        punctuation: Punctuation,
        target_uid: u32,
    ) -> (request: Request)
        requires
            self.spec_is_open(),
        ensures
            request@ == RequestView::SetPunctuation(
                Target::Uid(target_uid),
                punctuation.spec_code(),
            ),
    {
        Request::SetPunctuation(Target::Uid(target_uid), punctuation.code())
    }

    /// The call that sets how capital letters are announced in the messages of
    /// this connection.
    pub fn set_capital_letters(&self, capital_letters: CapitalLetters) -> (request: Request)
        requires
            self.spec_is_open(),
        ensures
            request@ == RequestView::SetCapitalLetters(Target::Own, capital_letters.spec_code()),
    {
        Request::SetCapitalLetters(Target::Own, capital_letters.code())
    }

    /// The call that sets how capital letters are announced in the messages of
    /// all clients.
    pub fn set_capital_letters_all(&self, capital_letters: CapitalLetters) -> (request: Request)
        requires
            self.spec_is_open(),
        ensures
            request@ == RequestView::SetCapitalLetters(Target::All, capital_letters.spec_code()),
    {
        Request::SetCapitalLetters(Target::All, capital_letters.code())
    }

    /// The call that sets how capital letters are announced in the messages of
    /// the client `target_uid`.
    pub fn set_capital_letters_uid(
        &self,
        capital_letters: CapitalLetters,
        target_uid: u32,
    ) -> (request: Request)
        requires
            self.spec_is_open(),
        ensures
            request@ == RequestView::SetCapitalLetters(
                Target::Uid(target_uid),
                capital_letters.spec_code(),
            ),
    {
        Request::SetCapitalLetters(Target::Uid(target_uid), capital_letters.code())
    }

    /// The call that sets whether text is spelled in the messages of this
    /// connection.
    pub fn set_spelling(&self, spelling: bool) -> (request: Request)
        requires
            self.spec_is_open(),
        ensures
            request@ == RequestView::SetSpelling(Target::Own, spec_spelling_code(spelling)),
    {
        Request::SetSpelling(Target::Own, spelling_code(spelling))
    }

    /// The call that sets whether text is spelled in the messages of all
    /// clients.
    pub fn set_spelling_all(&self, spelling: bool) -> (request: Request)
        requires
            self.spec_is_open(),
        ensures
            request@ == RequestView::SetSpelling(Target::All, spec_spelling_code(spelling)),
    {
        Request::SetSpelling(Target::All, spelling_code(spelling))
    }

    /// The call that sets whether text is spelled in the messages of the
    /// client `target_uid`.
    pub fn set_spelling_uid(&self, spelling: bool, target_uid: u32) -> (request: Request)
        requires
            self.spec_is_open(),
        ensures
            request@ == RequestView::SetSpelling(
                Target::Uid(target_uid),
                spec_spelling_code(spelling),
            ),
    {
        Request::SetSpelling(Target::Uid(target_uid), spelling_code(spelling))
    }

    /// The call that sets the language of this connection.
    pub fn set_language(&self, language: &str) -> (request: Request)
        requires
            self.spec_is_open(),
            !holds_nul(language@),
        ensures
            request@ == RequestView::SetLanguage(Target::Own, language@),
    {
        Request::SetLanguage(Target::Own, language.to_owned())
    }

    /// The call that sets the language of all clients.
    pub fn set_language_all(&self, language: &str) -> (request: Request)
        requires
            self.spec_is_open(),
            !holds_nul(language@),
        ensures
            request@ == RequestView::SetLanguage(Target::All, language@),
    {
        Request::SetLanguage(Target::All, language.to_owned())
    }

    /// The call that sets the language of the client `target_uid`.
    pub fn set_language_uid(&self, language: &str, target_uid: u32) -> (request: Request)
        requires
            self.spec_is_open(),
            !holds_nul(language@),
        ensures
            request@ == RequestView::SetLanguage(Target::Uid(target_uid), language@),
    {
        Request::SetLanguage(Target::Uid(target_uid), language.to_owned())
    }

    /// The call that asks the daemon for the language of this connection. The
    /// daemon is asked each time: nothing is kept on this side.
    pub fn get_language(&self) -> (request: Request)
        requires
            self.spec_is_open(),
        ensures
            request@ == RequestView::GetLanguage,
    {
        Request::GetLanguage
    }

    /// The call that sets the output module of this connection.
    pub fn set_output_module(&self, output_module: &str) -> (request: Request)
        requires
            self.spec_is_open(),
            !holds_nul(output_module@),
        ensures
            request@ == RequestView::SetOutputModule(Target::Own, output_module@),
    {
        Request::SetOutputModule(Target::Own, output_module.to_owned())
    }

    /// The call that sets the output module of all clients.
    pub fn set_output_module_all(&self, output_module: &str) -> (request: Request)
        requires
            self.spec_is_open(),
            !holds_nul(output_module@),
        ensures
            request@ == RequestView::SetOutputModule(Target::All, output_module@),
    {
        Request::SetOutputModule(Target::All, output_module.to_owned())
    }

    /// The call that sets the output module of the client `target_uid`.
    pub fn set_output_module_uid(&self, output_module: &str, target_uid: u32) -> (request: Request)
        requires
            self.spec_is_open(),
            !holds_nul(output_module@),
        ensures
            request@ == RequestView::SetOutputModule(Target::Uid(target_uid), output_module@),
    {
        Request::SetOutputModule(Target::Uid(target_uid), output_module.to_owned())
    }

    /// The call that sends `data` to the daemon as it is, a line of the
    /// daemon's protocol, and reads the reply where `wait_for_reply` says so.
    pub fn send_data(&self, data: &str, wait_for_reply: bool) -> (request: Request)
        requires
            self.spec_is_open(),
            !holds_nul(data@),
        ensures
            request@ == (RequestView::SendData {
                data: data@,
                wait_for_reply: if wait_for_reply {
                    WAIT_REPLY
                } else {
                    NO_REPLY
                },
            }),
    {
        let wfr: i32 = if wait_for_reply {
            WAIT_REPLY
        } else {
            NO_REPLY
        };
        Request::SendData { data: data.to_owned(), wait_for_reply: wfr }
    }

    /// Registers `f` as the handler that is called when the daemon begins to
    /// speak a message of this connection, in place of the handler that was
    /// registered for it before; `None` clears it. Where `registry` has no
    /// entry for this connection nothing happens.
    pub fn on_begin<H, M>(&self, registry: &mut Registry<H, M>, f: Option<H>)
        ensures
            final(registry)@ == registered(
                old(registry)@,
                self.spec_client_id(),
                Event::Begin,
                f,
            ),
    {
        registry.set_handler(self.client_id, Event::Begin, f);
    }

    /// Registers `f` as the handler that is called when the daemon has spoken
    /// a message of this connection to its end, in place of the handler that
    /// was registered for it before; `None` clears it. Where `registry` has no
    /// entry for this connection nothing happens.
    pub fn on_end<H, M>(&self, registry: &mut Registry<H, M>, f: Option<H>)
        ensures
            final(registry)@ == registered(
                old(registry)@,
                self.spec_client_id(),
                Event::End,
                f,
            ),
    {
        registry.set_handler(self.client_id, Event::End, f);
    }

    /// Registers `f` as the handler that is called when a message of this
    /// connection is cancelled, in place of the handler that was registered
    /// for it before; `None` clears it. Where `registry` has no entry for this
    /// connection nothing happens.
    pub fn on_cancel<H, M>(&self, registry: &mut Registry<H, M>, f: Option<H>)
        ensures
            final(registry)@ == registered(
                old(registry)@,
                self.spec_client_id(),
                Event::Cancel,
                f,
            ),
    {
        registry.set_handler(self.client_id, Event::Cancel, f);
    }

    /// Registers `f` as the handler that is called when a message of this
    /// connection is paused, in place of the handler that was registered for
    /// it before; `None` clears it. Where `registry` has no entry for this
    /// connection nothing happens.
    pub fn on_pause<H, M>(&self, registry: &mut Registry<H, M>, f: Option<H>)
        ensures
            final(registry)@ == registered(
                old(registry)@,
                self.spec_client_id(),
                Event::Pause,
                f,
            ),
    {
        registry.set_handler(self.client_id, Event::Pause, f);
    }

    /// Registers `f` as the handler that is called when a paused message of
    /// this connection is taken up again, in place of the handler that was
    /// registered for it before; `None` clears it. Where `registry` has no
    /// entry for this connection nothing happens.
    pub fn on_resume<H, M>(&self, registry: &mut Registry<H, M>, f: Option<H>)
        ensures
            final(registry)@ == registered(
                old(registry)@,
                self.spec_client_id(),
                Event::Resume,
                f,
            ),
    {
        registry.set_handler(self.client_id, Event::Resume, f);
    }

    /// Registers `f` as the handler that is called when the daemon reaches an
    /// index mark in a message of this connection, in place of the handler
    /// that was registered for it before; `None` clears it. Where `registry`
    /// has no entry for this connection nothing happens.
    pub fn on_index_mark<H, M>(&self, registry: &mut Registry<H, M>, f: Option<M>)
        ensures
            final(registry)@ == registered_index_mark(old(registry)@, self.spec_client_id(), f),
    {
        registry.set_index_mark_handler(self.client_id, f);
    }

    /// Once an open connection is closed, whatever the daemon still reports
    /// for its identifier is dropped. Closing it once more releases nothing
    /// and leaves the connection and the registry as they are.
    pub proof fn lemma_close<'a, H, M>(
        self,
        entries: Map<u64, Callbacks<H, M>>,
        msg_id: u64,
        event: Event,
        index_mark: String,
    )
        ensures
            !self.closed().spec_is_open(),
            self.closed().spec_client_id() == self.spec_client_id(),
            self.spec_is_open() ==> delivery::<'a, H, M>(
                self.entries_after_close(entries),
                msg_id,
                self.spec_client_id(),
                event.spec_code(),
            ) == Ok::<Option<Invocation<'a, H>>, UnknownEvent>(None),
            self.spec_is_open() ==> mark_delivery::<'a, H, M>(
                self.entries_after_close(entries),
                msg_id,
                self.spec_client_id(),
                INDEX_MARK,
                index_mark,
            ) == Ok::<Option<MarkInvocation<'a, M>>, UnknownEvent>(None),
            self.closed().closed() == self.closed(),
            self.closed().release() is None,
            self.closed().entries_after_close(self.entries_after_close(entries))
                == self.entries_after_close(entries),
    {
        Event::lemma_code_round_trip(event);
    }
}

} // verus!
