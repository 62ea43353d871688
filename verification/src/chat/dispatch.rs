//! What the server does with each request of a logged-in client: the decision, from the
//! client's state and the server's settings, of the next state and of the actions to perform,
//! in order. Performing them (sending, broadcasting, opening connections) is the caller's part.

use vstd::prelude::*;

use crate::chat::channels::{spec_valid_channel, valid_channel};
use crate::chat::role::{rank, Role};
use crate::chat::screen_options::name_view;

verus! {

/// A request of a logged-in client, with what the server's decision reads from it and from the
/// connection table.
pub enum ClientRequest {
    /// A message for the client's channel.
    Message,
    /// The client leaves.
    Disconnect,
    /// Join voice chat, or leave it when already in.
    Voice,
    /// Switch to a channel (`None`: leave every channel).
    Channel { channel: Option<String> },
    /// The online users.
    List,
    /// Start an upload.
    Upload,
    /// Download a file; `found` tells whether its owner and the file were found.
    Download { found: bool },
    /// Start sharing the screen, or stop when already sharing.
    Screen,
    /// Watch a screen; `sharer` is the id of the client found sharing, if any.
    Attach { sharer: Option<usize> },
    /// Stop watching a screen.
    Deattach,
    /// The uploaded files.
    Files,
    /// The shared screens.
    Screens,
    /// A private message for `recipient`; `found` tells whether a client with that id is
    /// connected.
    PrivateMessage { recipient: usize, found: bool },
    /// Read the server settings, or save `has_rows` new ones when `save` is set.
    ServerSettings { save: bool, has_rows: bool },
    /// The client is still there.
    KeepAlive,
    /// Anything else: ignored.
    Other,
}

/// The state of a logged-in client that the server's decisions read and change.
pub struct ClientState {
    /// The client's id.
    pub id: usize,
    /// The client's rank.
    pub role: Role,
    /// The channel the client is in.
    pub channel: Option<String>,
    /// Whether the client is in voice chat.
    pub in_voice: bool,
    /// Whether the client is sharing its screen.
    pub sharing_screen: bool,
    /// The id of the client whose screen this client watches, if any.
    pub attached_to: Option<usize>,
    /// How many uploads of this client are running.
    pub active_uploads: usize,
}

/// The server settings that the decisions read.
#[derive(Clone, Copy, PartialEq, Eq, Structural, Debug)]
pub struct ServerRules {
    /// Whether voice chat is on.
    pub voice_enabled: bool,
    /// Whether screen sharing is on.
    pub screenshare_enabled: bool,
    /// How many uploads a client may run at once.
    pub max_parallel_uploads: usize,
    /// The longest channel name.
    pub max_channel_length: usize,
    /// The lowest rank that may read and change the server settings.
    pub settings_role: Role,
}

/// What the server does, in order, after a request.
#[derive(Clone, Copy, PartialEq, Eq, Structural, Debug)]
pub enum ServerAction {
    /// Sends the trimmed message to the client's channel.
    BroadcastMessage,
    /// Removes the client's connection; the client's loop ends.
    RemoveConnection,
    /// Answers that the feature is switched off.
    InvalidFeature,
    /// Answers that the request was invalid.
    InvalidUsage,
    /// Opens a voice slot for the client and answers with its token.
    OpenVoice,
    /// Tells the client's channel that the client joined voice.
    AnnounceVoiceJoin,
    /// Sends the client the voice peers of its channel.
    SendVoiceClients,
    /// Answers that the client left voice.
    ReplyVoiceLeft,
    /// Tells the client's channel that the client left voice.
    AnnounceVoiceLeave,
    /// Closes the client's voice slot.
    CloseVoice,
    /// Moves the client to the channel it asked for and confirms it.
    SwitchChannel,
    /// Sends the online users.
    SendUserList,
    /// Answers that the client runs too many uploads.
    UploadLimit,
    /// Opens an upload connection and answers with its token.
    OpenUpload,
    /// Opens a download connection and answers with its token.
    OpenDownload,
    /// Detaches every watcher of the client's screen and confirms the end of the share.
    StopScreen,
    /// Opens a screen-share connection and answers with its token.
    OpenScreen,
    /// Opens a connection to watch `sharer`'s screen and answers with its token.
    OpenAttach { sharer: usize },
    /// Confirms that the client no longer watches `sharer`'s screen.
    Deattach { sharer: usize },
    /// Sends the uploaded files.
    SendFileList,
    /// Sends the shared screens.
    SendScreenList,
    /// Forwards the private message to `recipient`.
    ForwardPrivate { recipient: usize },
    /// Confirms the private message for `recipient` to its sender.
    ConfirmPrivate { recipient: usize },
    /// Saves the settings the client sent.
    SaveSettings,
    /// Sends the server settings.
    SendSettings,
    /// Marks the client alive.
    MarkAlive,
}

/// The parts of a client's state that the decisions read, as values.
pub struct StateView {
    pub id: usize,
    pub role: Role,
    pub channel: Option<Seq<char>>,
    pub in_voice: bool,
    pub sharing_screen: bool,
    pub attached_to: Option<usize>,
    pub active_uploads: usize,
}

impl ClientState {
    /// The state as values.
    pub open spec fn view(&self) -> StateView {
        StateView {
            id: self.id,
            role: self.role,
            channel: name_view(self.channel),
            in_voice: self.in_voice,
            sharing_screen: self.sharing_screen,
            attached_to: self.attached_to,
            active_uploads: self.active_uploads,
        }
    }
}

/// The state after a request: joining or leaving voice flips `in_voice` (when voice is on), a
/// valid channel switch sets the channel, stopping a share clears `sharing_screen`, and
/// detaching clears `attached_to`. Nothing else changes.
pub open spec fn spec_next_state(s: StateView, req: ClientRequest, rules: ServerRules) -> StateView {
    match req {
        ClientRequest::Voice => if rules.voice_enabled {
            StateView { in_voice: !s.in_voice, ..s }
        } else {
            s
        },
        ClientRequest::Channel { channel } => if spec_valid_channel(name_view(channel), rules.max_channel_length) {
            StateView { channel: name_view(channel), ..s }
        } else {
            s
        },
        ClientRequest::Screen => StateView { sharing_screen: false, ..s },
        ClientRequest::Deattach => StateView { attached_to: None, ..s },
        _ => s,
    }
}

/// The actions a request calls for, in order.
pub open spec fn spec_actions(s: StateView, req: ClientRequest, rules: ServerRules) -> Seq<ServerAction> {
    match req {
        ClientRequest::Message => seq![ServerAction::BroadcastMessage],
        ClientRequest::Disconnect => seq![ServerAction::RemoveConnection],
        ClientRequest::Voice => if !rules.voice_enabled {
            seq![ServerAction::InvalidFeature]
        } else if !s.in_voice {
            seq![ServerAction::OpenVoice, ServerAction::AnnounceVoiceJoin, ServerAction::SendVoiceClients]
        } else {
            seq![ServerAction::ReplyVoiceLeft, ServerAction::AnnounceVoiceLeave, ServerAction::CloseVoice]
        },
        ClientRequest::Channel { channel } => if spec_valid_channel(name_view(channel), rules.max_channel_length) {
            (if rules.voice_enabled {
                seq![ServerAction::AnnounceVoiceLeave]
            } else {
                Seq::empty()
            }) + seq![ServerAction::SwitchChannel] + (if rules.voice_enabled && s.in_voice {
                seq![ServerAction::AnnounceVoiceJoin]
            } else {
                Seq::empty()
            }) + seq![ServerAction::SendVoiceClients]
        } else {
            seq![ServerAction::InvalidUsage]
        },
        ClientRequest::List => seq![ServerAction::SendUserList],
        ClientRequest::Upload => if s.active_uploads >= rules.max_parallel_uploads {
            seq![ServerAction::UploadLimit]
        } else {
            seq![ServerAction::OpenUpload]
        },
        ClientRequest::Download { found } => if found {
            seq![ServerAction::OpenDownload]
        } else {
            seq![ServerAction::InvalidUsage]
        },
        ClientRequest::Screen => if s.sharing_screen {
            seq![ServerAction::StopScreen]
        } else if rules.screenshare_enabled {
            seq![ServerAction::OpenScreen]
        } else {
            seq![ServerAction::InvalidFeature]
        },
        ClientRequest::Attach { sharer } => match sharer {
            Some(id) => seq![ServerAction::OpenAttach { sharer: id }],
            None => seq![ServerAction::InvalidUsage],
        },
        ClientRequest::Deattach => match s.attached_to {
            Some(id) => seq![ServerAction::Deattach { sharer: id }],
            None => seq![ServerAction::InvalidUsage],
        },
        ClientRequest::Files => seq![ServerAction::SendFileList],
        ClientRequest::Screens => seq![ServerAction::SendScreenList],
        ClientRequest::PrivateMessage { recipient, found } => if !found {
            seq![ServerAction::InvalidUsage]
        } else if recipient != s.id {
            seq![ServerAction::ForwardPrivate { recipient }, ServerAction::ConfirmPrivate { recipient }]
        } else {
            seq![ServerAction::ConfirmPrivate { recipient }]
        },
        ClientRequest::ServerSettings { save, has_rows } => if rank(s.role) < rank(rules.settings_role) {
            seq![ServerAction::InvalidUsage]
        } else if save && has_rows {
            seq![ServerAction::SaveSettings, ServerAction::SendSettings]
        } else {
            seq![ServerAction::SendSettings]
        },
        ClientRequest::KeepAlive => seq![ServerAction::MarkAlive],
        ClientRequest::Other => Seq::empty(),
    }
}

/// Whether `a` ranks below `b`.
fn ranks_below(a: Role, b: Role) -> (r: bool)
    ensures
        r == (rank(a) < rank(b)),
{
    let x: u8 = match a {
        Role::User => 0,
        Role::Moderator => 1,
        Role::Owner => 2,
    };
    let y: u8 = match b {
        Role::User => 0,
        Role::Moderator => 1,
        Role::Owner => 2,
    };
    x < y
}

/// Decides what the server does with a request of a logged-in client: the client's next state
/// (see [`spec_next_state`]) and the actions to perform, in order (see [`spec_actions`]).
pub fn server_step(state: ClientState, request: ClientRequest, rules: ServerRules) -> (r: (ClientState, Vec<ServerAction>))
    ensures
        r.0.view() == spec_next_state(state.view(), request, rules),
        r.1@ == spec_actions(state.view(), request, rules),
{
    let ghost s = state.view();
    let ghost req = request;
    let mut state = state;
    let mut actions: Vec<ServerAction> = Vec::new();
    match request {
        ClientRequest::Message => {
            actions.push(ServerAction::BroadcastMessage);
        },
        ClientRequest::Disconnect => {
            actions.push(ServerAction::RemoveConnection);
        },
        ClientRequest::Voice => {
            if !rules.voice_enabled {
                actions.push(ServerAction::InvalidFeature);
            } else if !state.in_voice {
                actions.push(ServerAction::OpenVoice);
                actions.push(ServerAction::AnnounceVoiceJoin);
                actions.push(ServerAction::SendVoiceClients);
                state.in_voice = true;
            } else {
                actions.push(ServerAction::ReplyVoiceLeft);
                actions.push(ServerAction::AnnounceVoiceLeave);
                actions.push(ServerAction::CloseVoice);
                state.in_voice = false;
            }
        },
        ClientRequest::Channel { channel } => {
            if valid_channel(&channel, rules.max_channel_length) {
                if rules.voice_enabled {
                    actions.push(ServerAction::AnnounceVoiceLeave);
                }
                actions.push(ServerAction::SwitchChannel);
                if rules.voice_enabled && state.in_voice {
                    actions.push(ServerAction::AnnounceVoiceJoin);
                }
                actions.push(ServerAction::SendVoiceClients);
                state.channel = channel;
            } else {
                actions.push(ServerAction::InvalidUsage);
            }
        },
        ClientRequest::List => {
            actions.push(ServerAction::SendUserList);
        },
        ClientRequest::Upload => {
            if state.active_uploads >= rules.max_parallel_uploads {
                actions.push(ServerAction::UploadLimit);
            } else {
                actions.push(ServerAction::OpenUpload);
            }
        },
        ClientRequest::Download { found } => {
            if found {
                actions.push(ServerAction::OpenDownload);
            } else {
                actions.push(ServerAction::InvalidUsage);
            }
        },
        ClientRequest::Screen => {
            if state.sharing_screen {
                actions.push(ServerAction::StopScreen);
                state.sharing_screen = false;
            } else if rules.screenshare_enabled {
                actions.push(ServerAction::OpenScreen);
            } else {
                actions.push(ServerAction::InvalidFeature);
            }
        },
        ClientRequest::Attach { sharer } => {
            match sharer {
                Some(id) => actions.push(ServerAction::OpenAttach { sharer: id }),
                None => actions.push(ServerAction::InvalidUsage),
            }
        },
        ClientRequest::Deattach => {
            match state.attached_to {
                Some(id) => actions.push(ServerAction::Deattach { sharer: id }),
                None => actions.push(ServerAction::InvalidUsage),
            }
            state.attached_to = None;
        },
        ClientRequest::Files => {
            actions.push(ServerAction::SendFileList);
        },
        ClientRequest::Screens => {
            actions.push(ServerAction::SendScreenList);
        },
        ClientRequest::PrivateMessage { recipient, found } => {
            if !found {
                actions.push(ServerAction::InvalidUsage);
            } else {
                if recipient != state.id {
                    actions.push(ServerAction::ForwardPrivate { recipient });
                }
                actions.push(ServerAction::ConfirmPrivate { recipient });
            }
        },
        ClientRequest::ServerSettings { save, has_rows } => {
            if ranks_below(state.role, rules.settings_role) {
                actions.push(ServerAction::InvalidUsage);
            } else {
                if save && has_rows {
                    actions.push(ServerAction::SaveSettings);
                }
                actions.push(ServerAction::SendSettings);
            }
        },
        ClientRequest::KeepAlive => {
            actions.push(ServerAction::MarkAlive);
        },
        ClientRequest::Other => {},
    }
    proof {
        assert(actions@ =~= spec_actions(s, req, rules));
    }
    (state, actions)
}

/// Whether the session keys are due for renewal before a request is handled: the keys are at
/// least `interval_secs` old and the client runs no upload, which a key change would break.
pub fn rekey_due(key_age_secs: u64, interval_secs: u64, uploading: bool) -> (r: bool)
    ensures
        r == (key_age_secs >= interval_secs && !uploading),
{
    key_age_secs >= interval_secs && !uploading
}

/// A chat message is always broadcast to the sender's channel, and nothing else happens: it is
/// the one action, whatever the client's state and the server's settings, and the state stays.
pub proof fn law_message_is_broadcast(s: StateView, rules: ServerRules)
    ensures
        spec_actions(s, ClientRequest::Message, rules) == seq![ServerAction::BroadcastMessage],
        spec_next_state(s, ClientRequest::Message, rules) == s,
{
}

/// Requests that only read are answered with exactly the one reply they ask for and change
/// nothing: leaving removes the connection, the user, file and screen lists are sent, a
/// keepalive marks the client alive, and an unknown request is ignored.
pub proof fn law_plain_requests(s: StateView, rules: ServerRules)
    ensures
        spec_actions(s, ClientRequest::Disconnect, rules) == seq![ServerAction::RemoveConnection],
        spec_actions(s, ClientRequest::List, rules) == seq![ServerAction::SendUserList],
        spec_actions(s, ClientRequest::Files, rules) == seq![ServerAction::SendFileList],
        spec_actions(s, ClientRequest::Screens, rules) == seq![ServerAction::SendScreenList],
        spec_actions(s, ClientRequest::KeepAlive, rules) == seq![ServerAction::MarkAlive],
        spec_actions(s, ClientRequest::Other, rules) == Seq::<ServerAction>::empty(),
        spec_next_state(s, ClientRequest::Disconnect, rules) == s,
        spec_next_state(s, ClientRequest::List, rules) == s,
        spec_next_state(s, ClientRequest::Files, rules) == s,
        spec_next_state(s, ClientRequest::Screens, rules) == s,
        spec_next_state(s, ClientRequest::KeepAlive, rules) == s,
        spec_next_state(s, ClientRequest::Other, rules) == s,
{
}

/// No request changes who the client is, its rank, or its count of running uploads.
pub proof fn law_identity_kept(s: StateView, req: ClientRequest, rules: ServerRules)
    ensures
        spec_next_state(s, req, rules).id == s.id,
        spec_next_state(s, req, rules).role == s.role,
        spec_next_state(s, req, rules).active_uploads == s.active_uploads,
{
}

/// Voice toggles: with voice chat off the request is refused as a disabled feature and nothing
/// changes; with it on, a client out of voice gets a slot, is announced to its channel and is
/// sent its peers, and a client in voice is told it left, is announced as gone and loses its
/// slot. Asking twice puts the client back where it was.
pub proof fn law_voice_toggle(s: StateView, rules: ServerRules)
    ensures
        !rules.voice_enabled ==> spec_actions(s, ClientRequest::Voice, rules) == seq![ServerAction::InvalidFeature]
            && spec_next_state(s, ClientRequest::Voice, rules) == s,
        rules.voice_enabled ==> spec_next_state(s, ClientRequest::Voice, rules).in_voice == !s.in_voice,
        rules.voice_enabled && !s.in_voice ==> spec_actions(s, ClientRequest::Voice, rules) == seq![
            ServerAction::OpenVoice,
            ServerAction::AnnounceVoiceJoin,
            ServerAction::SendVoiceClients,
        ],
        rules.voice_enabled && s.in_voice ==> spec_actions(s, ClientRequest::Voice, rules) == seq![
            ServerAction::ReplyVoiceLeft,
            ServerAction::AnnounceVoiceLeave,
            ServerAction::CloseVoice,
        ],
        spec_next_state(spec_next_state(s, ClientRequest::Voice, rules), ClientRequest::Voice, rules) == s,
{
}

/// A channel switch happens exactly when the name is valid (see [`spec_valid_channel`]). A valid
/// switch moves the client to the channel it named, confirms it, and ends by sending the voice
/// peers of the new channel; when voice chat is on, the old channel hears the client leave first
/// and, if the client is in voice, the new channel hears it join. An invalid name is answered
/// with an invalid-usage notice and changes nothing.
pub proof fn law_channel_switch(s: StateView, channel: Option<String>, rules: ServerRules)
    ensures
        ({
            let req = ClientRequest::Channel { channel };
            let acts = spec_actions(s, req, rules);
            let next = spec_next_state(s, req, rules);
            if spec_valid_channel(name_view(channel), rules.max_channel_length) {
                &&& next == StateView { channel: name_view(channel), ..s }
                &&& acts.last() == ServerAction::SendVoiceClients
                &&& acts.len() == 2 + (if rules.voice_enabled { 1int } else { 0 }) + (if rules.voice_enabled
                    && s.in_voice {
                    1int
                } else {
                    0
                })
                &&& acts[if rules.voice_enabled { 1int } else { 0 }] == ServerAction::SwitchChannel
                &&& rules.voice_enabled ==> acts[0] == ServerAction::AnnounceVoiceLeave
                &&& rules.voice_enabled && s.in_voice ==> acts[2] == ServerAction::AnnounceVoiceJoin
            } else {
                &&& next == s
                &&& acts == seq![ServerAction::InvalidUsage]
            }
        }),
{
}

/// An upload is opened exactly when the client runs fewer uploads than allowed; otherwise it is
/// told it reached the limit. A download is opened exactly when the file was found.
pub proof fn law_transfers(s: StateView, found: bool, rules: ServerRules)
    ensures
        spec_actions(s, ClientRequest::Upload, rules) == (if s.active_uploads < rules.max_parallel_uploads {
            seq![ServerAction::OpenUpload]
        } else {
            seq![ServerAction::UploadLimit]
        }),
        spec_actions(s, ClientRequest::Download { found }, rules) == (if found {
            seq![ServerAction::OpenDownload]
        } else {
            seq![ServerAction::InvalidUsage]
        }),
{
}

/// Screen sharing: a client that shares stops sharing (whatever the setting); one that does not
/// is given a share when screen sharing is on and refused as a disabled feature otherwise.
/// Watching is opened for the sharer found and refused when none was; detaching confirms the
/// screen the client watched and leaves it watching nothing, and is refused when it watched
/// none.
pub proof fn law_screens(s: StateView, sharer: Option<usize>, rules: ServerRules)
    ensures
        s.sharing_screen ==> spec_actions(s, ClientRequest::Screen, rules) == seq![ServerAction::StopScreen],
        !s.sharing_screen && rules.screenshare_enabled ==> spec_actions(s, ClientRequest::Screen, rules) == seq![
            ServerAction::OpenScreen,
        ],
        !s.sharing_screen && !rules.screenshare_enabled ==> spec_actions(s, ClientRequest::Screen, rules) == seq![
            ServerAction::InvalidFeature,
        ],
        !spec_next_state(s, ClientRequest::Screen, rules).sharing_screen,
        spec_actions(s, ClientRequest::Attach { sharer }, rules) == (match sharer {
            Some(id) => seq![ServerAction::OpenAttach { sharer: id }],
            None => seq![ServerAction::InvalidUsage],
        }),
        spec_actions(s, ClientRequest::Deattach, rules) == (match s.attached_to {
            Some(id) => seq![ServerAction::Deattach { sharer: id }],
            None => seq![ServerAction::InvalidUsage],
        }),
        spec_next_state(s, ClientRequest::Deattach, rules).attached_to is None,
{
}

/// A private message is refused when its recipient is not connected; otherwise the sender is
/// always sent a confirmation, and the message is forwarded to the recipient first unless the
/// sender wrote to itself.
pub proof fn law_private_messages(s: StateView, recipient: usize, found: bool, rules: ServerRules)
    ensures
        spec_actions(s, ClientRequest::PrivateMessage { recipient, found }, rules) == (if !found {
            seq![ServerAction::InvalidUsage]
        } else if recipient == s.id {
            seq![ServerAction::ConfirmPrivate { recipient }]
        } else {
            seq![ServerAction::ForwardPrivate { recipient }, ServerAction::ConfirmPrivate { recipient }]
        }),
{
}

/// Only a client of at least the settings rank reaches the server settings: anyone below is
/// answered with an invalid-usage notice and nothing is saved or sent. A client of that rank is
/// always sent the settings, after saving the rows it sent when it asked to save some.
pub proof fn law_settings_need_rank(s: StateView, save: bool, has_rows: bool, rules: ServerRules)
    ensures
        rank(s.role) < rank(rules.settings_role) ==> spec_actions(
            s,
            ClientRequest::ServerSettings { save, has_rows },
            rules,
        ) == seq![ServerAction::InvalidUsage],
        rank(s.role) >= rank(rules.settings_role) ==> spec_actions(
            s,
            ClientRequest::ServerSettings { save, has_rows },
            rules,
        ) == (if save && has_rows {
            seq![ServerAction::SaveSettings, ServerAction::SendSettings]
        } else {
            seq![ServerAction::SendSettings]
        }),
{
}

} // verus!
