//! The calls that a connection makes on the daemon's client library.
//!
//! A [`Request`] names one native function, or one family of three, and holds
//! the arguments in the form in which that function receives them: codes for
//! the settings, text as it will be handed over. Making the call is not this
//! crate's business; whoever holds the native session does it.

use vstd::prelude::*;

verus! {

/// Whom a command is for: the connection that sends it, every client of the
/// daemon, or the one client with the given identifier.
#[derive(Debug, PartialEq, Eq)]
pub enum Target<U> {
    Own,
    All,
    Uid(U),
}

/// One call on the client library.
#[derive(Debug, PartialEq, Eq)]
pub enum Request {
    /// Open a session at the default address.
    Open { client_name: String, connection_name: String, user_name: String, mode: u32 },
    /// Open a session at an address that the caller supplies with the call;
    /// `autospawn` is 1 where the daemon may be started, else 0.
    Open2 {
        client_name: String,
        connection_name: String,
        user_name: String,
        mode: u32,
        autospawn: i32,
    },
    /// Release the session.
    Close,
    /// Queue a text.
    Say { priority: u32, text: String },
    /// Queue a text that the client library takes as a format.
    Sayf { priority: u32, format: String },
    /// Stop the message that is being spoken.
    Stop(Target<i32>),
    /// Discard the queued messages.
    Cancel(Target<i32>),
    /// Pause speaking.
    Pause(Target<i32>),
    /// Take speaking up again.
    Resume(Target<i32>),
    /// Speak the name of a key.
    Key { priority: u32, key_name: String },
    /// Spell a character.
    Char { priority: u32, character: String },
    /// Spell a character given by its code.
    WChar { priority: u32, wchar: i32 },
    /// Play a sound icon.
    SoundIcon { priority: u32, icon_name: String },
    SetVoiceType(Target<u32>, u32),
    GetVoiceType,
    SetSynthesisVoice(Target<u32>, String),
    SetDataMode(u32),
    SetNotificationOn(u32),
    SetNotificationOff(u32),
    SetNotification(u32, String),
    SetVoiceRate(Target<u32>, i32),
    GetVoiceRate,
    SetVoicePitch(Target<u32>, i32),
    GetVoicePitch,
    SetVolume(Target<u32>, i32),
    GetVolume,
    SetPunctuation(Target<u32>, u32),
    SetCapitalLetters(Target<u32>, u32),
    SetSpelling(Target<u32>, u32),
    SetLanguage(Target<u32>, String),
    GetLanguage,
    SetOutputModule(Target<u32>, String),
    /// Send a line of the daemon's protocol as it is; `wait_for_reply` is 1
    /// where the reply is read, else 0.
    SendData { data: String, wait_for_reply: i32 },
}

/// A [`Request`] with its texts as sequences of characters.
pub enum RequestView {
    Open { client_name: Seq<char>, connection_name: Seq<char>, user_name: Seq<char>, mode: u32 },
    Open2 {
        client_name: Seq<char>,
        connection_name: Seq<char>,
        user_name: Seq<char>,
        mode: u32,
        autospawn: i32,
    },
    Close,
    Say { priority: u32, text: Seq<char> },
    Sayf { priority: u32, format: Seq<char> },
    Stop(Target<i32>),
    Cancel(Target<i32>),
    Pause(Target<i32>),
    Resume(Target<i32>),
    Key { priority: u32, key_name: Seq<char> },
    Char { priority: u32, character: Seq<char> },
    WChar { priority: u32, wchar: i32 },
    SoundIcon { priority: u32, icon_name: Seq<char> },
    SetVoiceType(Target<u32>, u32),
    GetVoiceType,
    SetSynthesisVoice(Target<u32>, Seq<char>),
    SetDataMode(u32),
    SetNotificationOn(u32),
    SetNotificationOff(u32),
    SetNotification(u32, Seq<char>),
    SetVoiceRate(Target<u32>, i32),
    GetVoiceRate,
    SetVoicePitch(Target<u32>, i32),
    GetVoicePitch,
    SetVolume(Target<u32>, i32),
    GetVolume,
    SetPunctuation(Target<u32>, u32),
    SetCapitalLetters(Target<u32>, u32),
    SetSpelling(Target<u32>, u32),
    SetLanguage(Target<u32>, Seq<char>),
    GetLanguage,
    SetOutputModule(Target<u32>, Seq<char>),
    SendData { data: Seq<char>, wait_for_reply: i32 },
}

impl View for Request {
    type V = RequestView;

    open spec fn view(&self) -> RequestView {
        match *self {
            Request::Open { client_name, connection_name, user_name, mode } => RequestView::Open {
                client_name: client_name@,
                connection_name: connection_name@,
                user_name: user_name@,
                mode,
            },
            Request::Open2 {
                client_name,
                connection_name,
                user_name,
                mode,
                autospawn,
            } => RequestView::Open2 {
                client_name: client_name@,
                connection_name: connection_name@,
                user_name: user_name@,
                mode,
                autospawn,
            },
            Request::Close => RequestView::Close,
            Request::Say { priority, text } => RequestView::Say { priority, text: text@ },
            Request::Sayf { priority, format } => RequestView::Sayf { priority, format: format@ },
            Request::Stop(target) => RequestView::Stop(target),
            Request::Cancel(target) => RequestView::Cancel(target),
            Request::Pause(target) => RequestView::Pause(target),
            Request::Resume(target) => RequestView::Resume(target),
            Request::Key { priority, key_name } => RequestView::Key {
                priority,
                key_name: key_name@,
            },
            Request::Char { priority, character } => RequestView::Char {
                priority,
                character: character@,
            },
            Request::WChar { priority, wchar } => RequestView::WChar { priority, wchar },
            Request::SoundIcon { priority, icon_name } => RequestView::SoundIcon {
                priority,
                icon_name: icon_name@,
            },
            Request::SetVoiceType(target, code) => RequestView::SetVoiceType(target, code),
            Request::GetVoiceType => RequestView::GetVoiceType,
            Request::SetSynthesisVoice(target, name) => RequestView::SetSynthesisVoice(
                target,
                name@,
            ),
            Request::SetDataMode(code) => RequestView::SetDataMode(code),
            Request::SetNotificationOn(code) => RequestView::SetNotificationOn(code),
            Request::SetNotificationOff(code) => RequestView::SetNotificationOff(code),
            Request::SetNotification(code, state) => RequestView::SetNotification(code, state@),
            Request::SetVoiceRate(target, rate) => RequestView::SetVoiceRate(target, rate),
            Request::GetVoiceRate => RequestView::GetVoiceRate,
            Request::SetVoicePitch(target, pitch) => RequestView::SetVoicePitch(target, pitch),
            Request::GetVoicePitch => RequestView::GetVoicePitch,
            Request::SetVolume(target, volume) => RequestView::SetVolume(target, volume),
            Request::GetVolume => RequestView::GetVolume,
            Request::SetPunctuation(target, code) => RequestView::SetPunctuation(target, code),
            Request::SetCapitalLetters(target, code) => RequestView::SetCapitalLetters(
                target,
                code,
            ),
            Request::SetSpelling(target, code) => RequestView::SetSpelling(target, code),
            Request::SetLanguage(target, language) => RequestView::SetLanguage(target, language@),
            Request::GetLanguage => RequestView::GetLanguage,
            Request::SetOutputModule(target, module) => RequestView::SetOutputModule(
                target,
                module@,
            ),
            Request::SendData { data, wait_for_reply } => RequestView::SendData {
                data: data@,
                wait_for_reply,
            },
        }
    }
}

} // verus!
