//! What the chat client does with each packet from the server: the decision, from the session's
//! state, of the next state and of the actions to perform, in order. Performing them (showing
//! events, answering, starting voice, screen and file tasks) is the caller's part.

use vstd::prelude::*;

use crate::chat::login::PromptMemory;
use crate::chat::screen_options::name_view;

verus! {

/// A packet from the server, with what the client's decision reads from it and from the
/// client's options.
pub enum ServerPacket {
    /// The server checks the client is there.
    KeepAlive,
    /// A chat message; `sender_muted` tells whether it comes from a client muted here.
    Message { sender_muted: bool },
    /// The server's version check; `differs` tells whether the server named a version other
    /// than the client's.
    Version { differs: bool },
    /// The server's limits and name; `hashes_differ` tells whether both builds name a source
    /// revision and the two differ.
    Welcome { min_pass: u64, max_uname: u64, min_uname: u64, hashes_differ: bool },
    /// The server starts a key exchange.
    Rekey,
    /// The server asks for a username.
    Username,
    /// The server asks for a new user's password.
    PasswordRegister,
    /// The server asks for a returning user's password.
    PasswordLogin,
    /// The server accepted the login and assigned the client chat id `id`.
    Accept { id: usize },
    /// A client joined; the first such packet names this client.
    Join { username: String },
    /// Client `id` left.
    Leave { id: usize },
    /// The client's channel changed.
    Channel,
    /// A channel was created.
    ChannelCreated,
    /// A channel was abandoned.
    ChannelDestroyed,
    /// The server acknowledged a voice toggle.
    Voice,
    /// The voice peers of the client's channel.
    VoiceClients,
    /// Client `id` joined voice in the client's channel.
    ChannelJoin { id: usize },
    /// Client `id` left voice in the client's channel.
    ChannelLeave { id: usize },
    /// The online users.
    List,
    /// An upload was approved.
    Upload,
    /// A download was approved.
    Download,
    /// Someone uploaded a file.
    Uploaded,
    /// The uploaded files; `present` tells whether the list came with the packet.
    Files { present: bool },
    /// The shared screens; `present` tells whether the list came with the packet.
    Screens { present: bool },
    /// Too many uploads are running.
    UploadLimit,
    /// A screen share was approved (`approved`) or ended.
    Screen { approved: bool },
    /// Watching a screen was approved.
    Attach,
    /// Watching a screen ended.
    Deattach,
    /// A private message arrived.
    PrivateMessage,
    /// A private message was delivered.
    PrivateMessageBack,
    /// The client sends too fast.
    SpamWarning,
    /// The server does not take new users.
    RegisterDisabled,
    /// The client's last request was invalid.
    InvalidUsage,
    /// The client asked for a feature the server has switched off.
    InvalidFeature,
    /// The server closes the connection.
    Disconnect,
    /// Anything else (a key-exchange packet, or an unknown one): ignored.
    Other,
}

/// What the client knows of its session while it reads from the server.
pub struct ClientSession {
    /// Which login prompts were shown already (a repeated prompt means a refusal).
    pub prompts: PromptMemory,
    /// Whether the server refuses new users.
    pub registration_disabled: bool,
    /// The shortest password the server takes, once told.
    pub min_pass: Option<u64>,
    /// The longest username the server takes, once told.
    pub max_uname: Option<u64>,
    /// The shortest username the server takes, once told.
    pub min_uname: Option<u64>,
    /// Whether no client has joined yet (the first join names this client).
    pub first_join: bool,
    /// The chat id the server assigned.
    pub id: usize,
    /// This client's username, once known.
    pub username: Option<String>,
    /// Whether voice is in use.
    pub use_voice: bool,
    /// Whether connections go through SOCKS5 (voice cannot).
    pub socks5: bool,
    /// Whether this client shares its screen.
    pub use_screen: bool,
    /// Whether this client watches a screen.
    pub attach_screen: bool,
}

/// A client session as values.
pub struct SessionView {
    pub username_asked: bool,
    pub password_asked: bool,
    pub registration_disabled: bool,
    pub min_pass: Option<u64>,
    pub max_uname: Option<u64>,
    pub min_uname: Option<u64>,
    pub first_join: bool,
    pub id: usize,
    pub username: Option<Seq<char>>,
    pub use_voice: bool,
    pub socks5: bool,
    pub use_screen: bool,
    pub attach_screen: bool,
}

impl ClientSession {
    /// The session as values.
    pub open spec fn view(&self) -> SessionView {
        SessionView {
            username_asked: self.prompts.username_asked,
            password_asked: self.prompts.password_asked,
            registration_disabled: self.registration_disabled,
            min_pass: self.min_pass,
            max_uname: self.max_uname,
            min_uname: self.min_uname,
            first_join: self.first_join,
            id: self.id,
            username: name_view(self.username),
            use_voice: self.use_voice,
            socks5: self.socks5,
            use_screen: self.use_screen,
            attach_screen: self.attach_screen,
        }
    }
}

/// What the client does, in order, after a packet.
#[derive(Clone, Copy, PartialEq, Eq, Structural, Debug)]
pub enum ClientAction {
    /// Answers the keepalive.
    EchoKeepAlive,
    /// Shows the message.
    ShowMessage,
    /// Reports that the server runs an incompatible version.
    ReportIncompatibleVersion,
    /// Sends the client's version.
    SendVersion,
    /// Reports that the two builds come from different source revisions.
    ReportVersionMismatch,
    /// Stores the server's name and shows that the client is connected.
    ShowConnected,
    /// Takes part in the key exchange the server started.
    Rekey,
    /// Reports that the username was refused.
    ReportUsernameRejected,
    /// Asks for a username within `min`..`max` characters; `registration_disabled` is shown.
    AskUsername { registration_disabled: bool, min: u64, max: u64 },
    /// Hides what is typed next.
    HideInput,
    /// Reports that the password was refused; passwords need `min_pass` characters.
    ReportPasswordRejected { min_pass: u64 },
    /// Asks for a new user's password.
    AskRegisterPassword,
    /// Asks for a returning user's password.
    AskLoginPassword,
    /// Shows that the login succeeded and allows messages and commands.
    StartChatting,
    /// Shows the join.
    ShowJoin,
    /// Shows the leave.
    ShowLeave,
    /// Stops playing client `id`'s voice.
    RemoveVoicePeer { id: usize },
    /// Stops playing every voice.
    RemoveAllVoicePeers,
    /// Stores the new channel and shows it.
    SwitchChannel,
    /// Shows the new channel.
    ShowChannelCreated,
    /// Shows the abandoned channel.
    ShowChannelDestroyed,
    /// Reports that voice does not work through SOCKS5.
    ReportSocks5Voice,
    /// Starts voice as client `id` and shows it on.
    StartVoice { id: usize },
    /// Shows voice off.
    ShowVoiceDisabled,
    /// Plays the listed voice peers.
    AddVoicePeers,
    /// Plays client `id`'s voice.
    AddVoicePeer { id: usize },
    /// Shows the online users.
    ShowList,
    /// Starts the approved upload.
    StartUpload,
    /// Starts the approved download.
    StartDownload,
    /// Shows the upload announcement.
    ShowUploaded,
    /// Shows the uploaded files.
    ShowFiles,
    /// Shows the shared screens.
    ShowScreens,
    /// Shows the upload limit.
    ShowUploadLimit,
    /// Starts sharing the screen and shows it.
    StartScreen,
    /// Shows that the share ended.
    ShowScreenStopped,
    /// Starts watching the screen and shows it.
    StartAttach,
    /// Shows that watching ended.
    ShowDeattach,
    /// Shows the private message.
    ShowPrivateMessage,
    /// Shows that the private message was delivered.
    ShowPrivateMessageSent,
    /// Shows the spam warning.
    ShowSpamWarning,
    /// Shows that the request was invalid.
    ShowInvalidUsage,
    /// Shows that the feature is off.
    ShowDisabledFeature,
    /// Quits; the loop ends.
    Quit,
}

/// Whether the client can handle `p` in session `s`: a username prompt needs the server's
/// username limits, a repeated password prompt its password limit, and starting voice this
/// client's username.
pub open spec fn can_handle(s: SessionView, p: ServerPacket) -> bool {
    match p {
        ServerPacket::Username => s.min_uname is Some && s.max_uname is Some,
        ServerPacket::PasswordRegister => s.password_asked ==> s.min_pass is Some,
        ServerPacket::Voice => !s.socks5 && !s.use_voice ==> s.username is Some,
        _ => true,
    }
}

/// The session after a packet.
pub open spec fn spec_client_next(s: SessionView, p: ServerPacket) -> SessionView {
    match p {
        ServerPacket::Welcome { min_pass, max_uname, min_uname, .. } => SessionView {
            min_pass: Some(min_pass),
            max_uname: Some(max_uname),
            min_uname: Some(min_uname),
            ..s
        },
        ServerPacket::Username => SessionView { username_asked: true, ..s },
        ServerPacket::PasswordRegister => SessionView { password_asked: true, ..s },
        ServerPacket::Accept { id } => SessionView { id, ..s },
        ServerPacket::Join { username } => if s.first_join {
            SessionView { first_join: false, username: Some(username@), ..s }
        } else {
            s
        },
        ServerPacket::Voice => if s.socks5 {
            s
        } else {
            SessionView { use_voice: !s.use_voice, ..s }
        },
        ServerPacket::Screen { approved } => SessionView { use_screen: approved, ..s },
        ServerPacket::Attach => SessionView { attach_screen: true, ..s },
        ServerPacket::Deattach => SessionView { attach_screen: false, ..s },
        ServerPacket::RegisterDisabled => SessionView { registration_disabled: true, ..s },
        _ => s,
    }
}

/// The actions a packet calls for, in order.
pub open spec fn spec_client_actions(s: SessionView, p: ServerPacket) -> Seq<ClientAction> {
    match p {
        ServerPacket::KeepAlive => seq![ClientAction::EchoKeepAlive],
        ServerPacket::Message { sender_muted } => if sender_muted {
            Seq::empty()
        } else {
            seq![ClientAction::ShowMessage]
        },
        ServerPacket::Version { differs } => (if differs {
            seq![ClientAction::ReportIncompatibleVersion]
        } else {
            Seq::empty()
        }) + seq![ClientAction::SendVersion],
        ServerPacket::Welcome { hashes_differ, .. } => (if hashes_differ {
            seq![ClientAction::ReportVersionMismatch]
        } else {
            Seq::empty()
        }) + seq![ClientAction::ShowConnected],
        ServerPacket::Rekey => seq![ClientAction::Rekey],
        ServerPacket::Username => (if s.username_asked {
            seq![ClientAction::ReportUsernameRejected]
        } else {
            Seq::empty()
        }) + seq![
            ClientAction::AskUsername {
                registration_disabled: s.registration_disabled,
                min: s.min_uname->0,
                max: s.max_uname->0,
            },
        ],
        ServerPacket::PasswordRegister => seq![ClientAction::HideInput] + (if s.password_asked {
            seq![ClientAction::ReportPasswordRejected { min_pass: s.min_pass->0 }]
        } else {
            Seq::empty()
        }) + seq![ClientAction::AskRegisterPassword],
        ServerPacket::PasswordLogin => seq![ClientAction::HideInput, ClientAction::AskLoginPassword],
        ServerPacket::Accept { .. } => seq![ClientAction::StartChatting],
        ServerPacket::Join { .. } => seq![ClientAction::ShowJoin],
        ServerPacket::Leave { id } => seq![ClientAction::ShowLeave, ClientAction::RemoveVoicePeer { id }],
        ServerPacket::Channel => seq![ClientAction::RemoveAllVoicePeers, ClientAction::SwitchChannel],
        ServerPacket::ChannelCreated => seq![ClientAction::ShowChannelCreated],
        ServerPacket::ChannelDestroyed => seq![ClientAction::ShowChannelDestroyed],
        ServerPacket::Voice => if s.socks5 {
            seq![ClientAction::ReportSocks5Voice]
        } else if !s.use_voice {
            seq![ClientAction::StartVoice { id: s.id }]
        } else {
            seq![ClientAction::ShowVoiceDisabled]
        },
        ServerPacket::VoiceClients => seq![ClientAction::AddVoicePeers],
        ServerPacket::ChannelJoin { id } => if s.use_voice && id != s.id {
            seq![ClientAction::AddVoicePeer { id }]
        } else {
            Seq::empty()
        },
        ServerPacket::ChannelLeave { id } => seq![ClientAction::RemoveVoicePeer { id }],
        ServerPacket::List => seq![ClientAction::ShowList],
        ServerPacket::Upload => seq![ClientAction::StartUpload],
        ServerPacket::Download => seq![ClientAction::StartDownload],
        ServerPacket::Uploaded => seq![ClientAction::ShowUploaded],
        ServerPacket::Files { present } => if present {
            seq![ClientAction::ShowFiles]
        } else {
            Seq::empty()
        },
        ServerPacket::Screens { present } => if present {
            seq![ClientAction::ShowScreens]
        } else {
            Seq::empty()
        },
        ServerPacket::UploadLimit => seq![ClientAction::ShowUploadLimit],
        ServerPacket::Screen { approved } => if approved {
            seq![ClientAction::StartScreen]
        } else {
            seq![ClientAction::ShowScreenStopped]
        },
        ServerPacket::Attach => seq![ClientAction::StartAttach],
        ServerPacket::Deattach => seq![ClientAction::ShowDeattach],
        ServerPacket::PrivateMessage => seq![ClientAction::ShowPrivateMessage],
        ServerPacket::PrivateMessageBack => seq![ClientAction::ShowPrivateMessageSent],
        ServerPacket::SpamWarning => seq![ClientAction::ShowSpamWarning],
        ServerPacket::RegisterDisabled => Seq::empty(),
        ServerPacket::InvalidUsage => seq![ClientAction::ShowInvalidUsage],
        ServerPacket::InvalidFeature => seq![ClientAction::ShowDisabledFeature],
        ServerPacket::Disconnect => seq![ClientAction::Quit],
        ServerPacket::Other => Seq::empty(),
    }
}

/// Decides what the client does with a packet from the server: the next session (see
/// [`spec_client_next`]) and the actions to perform, in order (see [`spec_client_actions`]).
pub fn client_step(session: ClientSession, packet: ServerPacket) -> (r: (ClientSession, Vec<ClientAction>))
    requires
        can_handle(session.view(), packet),
    ensures
        r.0.view() == spec_client_next(session.view(), packet),
        r.1@ == spec_client_actions(session.view(), packet),
{
    let ghost s = session.view();
    let ghost p = packet;
    let mut session = session;
    let mut actions: Vec<ClientAction> = Vec::new();
    match packet {
        ServerPacket::KeepAlive => {
            actions.push(ClientAction::EchoKeepAlive);
        },
        ServerPacket::Message { sender_muted } => {
            if !sender_muted {
                actions.push(ClientAction::ShowMessage);
            }
        },
        ServerPacket::Version { differs } => {
            if differs {
                actions.push(ClientAction::ReportIncompatibleVersion);
            }
            actions.push(ClientAction::SendVersion);
        },
        ServerPacket::Welcome { min_pass, max_uname, min_uname, hashes_differ } => {
            session.min_pass = Some(min_pass);
            session.max_uname = Some(max_uname);
            session.min_uname = Some(min_uname);
            if hashes_differ {
                actions.push(ClientAction::ReportVersionMismatch);
            }
            actions.push(ClientAction::ShowConnected);
        },
        ServerPacket::Rekey => {
            actions.push(ClientAction::Rekey);
        },
        ServerPacket::Username => {
            if session.prompts.username_ask() {
                actions.push(ClientAction::ReportUsernameRejected);
            }
            let min = match session.min_uname {
                Some(v) => v,
                None => 0,
            };
            let max = match session.max_uname {
                Some(v) => v,
                None => 0,
            };
            actions.push(ClientAction::AskUsername { registration_disabled: session.registration_disabled, min, max });
        },
        ServerPacket::PasswordRegister => {
            actions.push(ClientAction::HideInput);
            if session.prompts.password_ask() {
                let min_pass = match session.min_pass {
                    Some(v) => v,
                    None => 0,
                };
                actions.push(ClientAction::ReportPasswordRejected { min_pass });
            }
            actions.push(ClientAction::AskRegisterPassword);
        },
        ServerPacket::PasswordLogin => {
            actions.push(ClientAction::HideInput);
            actions.push(ClientAction::AskLoginPassword);
        },
        ServerPacket::Accept { id } => {
            session.id = id;
            actions.push(ClientAction::StartChatting);
        },
        ServerPacket::Join { username } => {
            if session.first_join {
                session.first_join = false;
                session.username = Some(username);
            }
            actions.push(ClientAction::ShowJoin);
        },
        ServerPacket::Leave { id } => {
            actions.push(ClientAction::ShowLeave);
            actions.push(ClientAction::RemoveVoicePeer { id });
        },
        ServerPacket::Channel => {
            actions.push(ClientAction::RemoveAllVoicePeers);
            actions.push(ClientAction::SwitchChannel);
        },
        ServerPacket::ChannelCreated => {
            actions.push(ClientAction::ShowChannelCreated);
        },
        ServerPacket::ChannelDestroyed => {
            actions.push(ClientAction::ShowChannelDestroyed);
        },
        ServerPacket::Voice => {
            if session.socks5 {
                actions.push(ClientAction::ReportSocks5Voice);
            } else if !session.use_voice {
                session.use_voice = true;
                actions.push(ClientAction::StartVoice { id: session.id });
            } else {
                session.use_voice = false;
                actions.push(ClientAction::ShowVoiceDisabled);
            }
        },
        ServerPacket::VoiceClients => {
            actions.push(ClientAction::AddVoicePeers);
        },
        ServerPacket::ChannelJoin { id } => {
            if session.use_voice && id != session.id {
                actions.push(ClientAction::AddVoicePeer { id });
            }
        },
        ServerPacket::ChannelLeave { id } => {
            actions.push(ClientAction::RemoveVoicePeer { id });
        },
        ServerPacket::List => {
            actions.push(ClientAction::ShowList);
        },
        ServerPacket::Upload => {
            actions.push(ClientAction::StartUpload);
        },
        ServerPacket::Download => {
            actions.push(ClientAction::StartDownload);
        },
        ServerPacket::Uploaded => {
            actions.push(ClientAction::ShowUploaded);
        },
        ServerPacket::Files { present } => {
            if present {
                actions.push(ClientAction::ShowFiles);
            }
        },
        ServerPacket::Screens { present } => {
            if present {
                actions.push(ClientAction::ShowScreens);
            }
        },
        ServerPacket::UploadLimit => {
            actions.push(ClientAction::ShowUploadLimit);
        },
        ServerPacket::Screen { approved } => {
            session.use_screen = approved;
            if approved {
                actions.push(ClientAction::StartScreen);
            } else {
                actions.push(ClientAction::ShowScreenStopped);
            }
        },
        ServerPacket::Attach => {
            session.attach_screen = true;
            actions.push(ClientAction::StartAttach);
        },
        ServerPacket::Deattach => {
            session.attach_screen = false;
            actions.push(ClientAction::ShowDeattach);
        },
        ServerPacket::PrivateMessage => {
            actions.push(ClientAction::ShowPrivateMessage);
        },
        ServerPacket::PrivateMessageBack => {
            actions.push(ClientAction::ShowPrivateMessageSent);
        },
        ServerPacket::SpamWarning => {
            actions.push(ClientAction::ShowSpamWarning);
        },
        ServerPacket::RegisterDisabled => {
            session.registration_disabled = true;
        },
        ServerPacket::InvalidUsage => {
            actions.push(ClientAction::ShowInvalidUsage);
        },
        ServerPacket::InvalidFeature => {
            actions.push(ClientAction::ShowDisabledFeature);
        },
        ServerPacket::Disconnect => {
            actions.push(ClientAction::Quit);
        },
        ServerPacket::Other => {},
    }
    proof {
        assert(actions@ =~= spec_client_actions(s, p));
    }
    (session, actions)
}

/// A chat message is shown exactly when its sender is not muted here, and nothing else happens.
pub proof fn law_message_shown_unless_muted(s: SessionView, sender_muted: bool)
    ensures
        spec_client_actions(s, ServerPacket::Message { sender_muted }) == (if sender_muted {
            Seq::<ClientAction>::empty()
        } else {
            seq![ClientAction::ShowMessage]
        }),
        spec_client_next(s, ServerPacket::Message { sender_muted }) == s,
{
}

/// Packets that carry news for the user are shown, one event each, and change nothing: joins
/// and leaves (a leaving client's voice stops too), channel news, lists that came with their
/// packet, upload news, private messages, warnings and refusals; a keepalive is answered; the
/// server closing the connection makes the client quit.
pub proof fn law_news_is_shown(s: SessionView, id: usize)
    ensures
        spec_client_actions(s, ServerPacket::KeepAlive) == seq![ClientAction::EchoKeepAlive],
        spec_client_actions(s, ServerPacket::Leave { id }) == seq![
            ClientAction::ShowLeave,
            ClientAction::RemoveVoicePeer { id },
        ],
        spec_client_actions(s, ServerPacket::Channel) == seq![
            ClientAction::RemoveAllVoicePeers,
            ClientAction::SwitchChannel,
        ],
        spec_client_actions(s, ServerPacket::ChannelCreated) == seq![ClientAction::ShowChannelCreated],
        spec_client_actions(s, ServerPacket::ChannelDestroyed) == seq![ClientAction::ShowChannelDestroyed],
        spec_client_actions(s, ServerPacket::ChannelLeave { id }) == seq![ClientAction::RemoveVoicePeer { id }],
        spec_client_actions(s, ServerPacket::VoiceClients) == seq![ClientAction::AddVoicePeers],
        spec_client_actions(s, ServerPacket::List) == seq![ClientAction::ShowList],
        spec_client_actions(s, ServerPacket::Upload) == seq![ClientAction::StartUpload],
        spec_client_actions(s, ServerPacket::Download) == seq![ClientAction::StartDownload],
        spec_client_actions(s, ServerPacket::Uploaded) == seq![ClientAction::ShowUploaded],
        spec_client_actions(s, ServerPacket::Files { present: true }) == seq![ClientAction::ShowFiles],
        spec_client_actions(s, ServerPacket::Files { present: false }) == Seq::<ClientAction>::empty(),
        spec_client_actions(s, ServerPacket::Screens { present: true }) == seq![ClientAction::ShowScreens],
        spec_client_actions(s, ServerPacket::Screens { present: false }) == Seq::<ClientAction>::empty(),
        spec_client_actions(s, ServerPacket::UploadLimit) == seq![ClientAction::ShowUploadLimit],
        spec_client_actions(s, ServerPacket::PrivateMessage) == seq![ClientAction::ShowPrivateMessage],
        spec_client_actions(s, ServerPacket::PrivateMessageBack) == seq![ClientAction::ShowPrivateMessageSent],
        spec_client_actions(s, ServerPacket::SpamWarning) == seq![ClientAction::ShowSpamWarning],
        spec_client_actions(s, ServerPacket::InvalidUsage) == seq![ClientAction::ShowInvalidUsage],
        spec_client_actions(s, ServerPacket::InvalidFeature) == seq![ClientAction::ShowDisabledFeature],
        spec_client_actions(s, ServerPacket::Rekey) == seq![ClientAction::Rekey],
        spec_client_actions(s, ServerPacket::Disconnect) == seq![ClientAction::Quit],
        spec_client_actions(s, ServerPacket::Other) == Seq::<ClientAction>::empty(),
        spec_client_next(s, ServerPacket::Leave { id }) == s,
        spec_client_next(s, ServerPacket::Channel) == s,
        spec_client_next(s, ServerPacket::Disconnect) == s,
        spec_client_next(s, ServerPacket::Other) == s,
{
}

/// The server's version is answered with the client's, after reporting an incompatible one;
/// the server's welcome stores its limits, reports differing builds, and shows the connection.
pub proof fn law_greeting(s: SessionView, differs: bool, min_pass: u64, max_uname: u64, min_uname: u64, hashes_differ: bool)
    ensures
        spec_client_actions(s, ServerPacket::Version { differs }) == (if differs {
            seq![ClientAction::ReportIncompatibleVersion, ClientAction::SendVersion]
        } else {
            seq![ClientAction::SendVersion]
        }),
        ({
            let p = ServerPacket::Welcome { min_pass, max_uname, min_uname, hashes_differ };
            &&& spec_client_next(s, p) == SessionView {
                min_pass: Some(min_pass),
                max_uname: Some(max_uname),
                min_uname: Some(min_uname),
                ..s
            }
            &&& spec_client_actions(s, p) == (if hashes_differ {
                seq![ClientAction::ReportVersionMismatch, ClientAction::ShowConnected]
            } else {
                seq![ClientAction::ShowConnected]
            })
        }),
{
}

/// Login prompts: a username prompt reports the previous name refused exactly when one was asked
/// for before, then asks for a name within the server's limits; a new user's password prompt
/// hides the input, reports the previous password refused exactly when one was asked for
/// before (with the server's minimum), then asks; a returning user's prompt hides the input and
/// asks. Acceptance stores the assigned id and starts the chat; the first join names this client
/// and later joins do not.
pub proof fn law_login_prompts(s: SessionView, id: usize, username: String)
    ensures
        spec_client_actions(s, ServerPacket::Username) == (if s.username_asked {
            seq![ClientAction::ReportUsernameRejected]
        } else {
            Seq::empty()
        }) + seq![
            ClientAction::AskUsername {
                registration_disabled: s.registration_disabled,
                min: s.min_uname->0,
                max: s.max_uname->0,
            },
        ],
        spec_client_next(s, ServerPacket::Username).username_asked,
        spec_client_actions(s, ServerPacket::PasswordRegister) == (if s.password_asked {
            seq![
                ClientAction::HideInput,
                ClientAction::ReportPasswordRejected { min_pass: s.min_pass->0 },
                ClientAction::AskRegisterPassword,
            ]
        } else {
            seq![ClientAction::HideInput, ClientAction::AskRegisterPassword]
        }),
        spec_client_next(s, ServerPacket::PasswordRegister).password_asked,
        spec_client_actions(s, ServerPacket::PasswordLogin) == seq![ClientAction::HideInput, ClientAction::AskLoginPassword],
        spec_client_actions(s, ServerPacket::Accept { id }) == seq![ClientAction::StartChatting],
        spec_client_next(s, ServerPacket::Accept { id }).id == id,
        spec_client_next(s, ServerPacket::RegisterDisabled).registration_disabled,
        spec_client_actions(s, ServerPacket::Join { username }) == seq![ClientAction::ShowJoin],
        s.first_join ==> spec_client_next(s, ServerPacket::Join { username }).username == Some(username@)
            && !spec_client_next(s, ServerPacket::Join { username }).first_join,
        !s.first_join ==> spec_client_next(s, ServerPacket::Join { username }) == s,
{
    assert(seq![
        ClientAction::HideInput,
        ClientAction::ReportPasswordRejected { min_pass: s.min_pass->0 },
        ClientAction::AskRegisterPassword,
    ] =~= seq![ClientAction::HideInput] + seq![ClientAction::ReportPasswordRejected { min_pass: s.min_pass->0 }]
        + seq![ClientAction::AskRegisterPassword]);
    assert(seq![ClientAction::HideInput, ClientAction::AskRegisterPassword] =~= seq![ClientAction::HideInput]
        + Seq::<ClientAction>::empty() + seq![ClientAction::AskRegisterPassword]);
}

/// Voice: through SOCKS5 a voice acknowledgement is only reported as impossible and changes
/// nothing; otherwise it flips voice, starting it as this client when it was off and showing it
/// off when it was on. A peer joining voice is played exactly when voice is on here and the peer
/// is not this client.
pub proof fn law_client_voice(s: SessionView, id: usize)
    ensures
        s.socks5 ==> spec_client_actions(s, ServerPacket::Voice) == seq![ClientAction::ReportSocks5Voice]
            && spec_client_next(s, ServerPacket::Voice) == s,
        !s.socks5 ==> spec_client_next(s, ServerPacket::Voice).use_voice == !s.use_voice,
        !s.socks5 && !s.use_voice ==> spec_client_actions(s, ServerPacket::Voice) == seq![
            ClientAction::StartVoice { id: s.id },
        ],
        !s.socks5 && s.use_voice ==> spec_client_actions(s, ServerPacket::Voice) == seq![ClientAction::ShowVoiceDisabled],
        spec_client_actions(s, ServerPacket::ChannelJoin { id }) == (if s.use_voice && id != s.id {
            seq![ClientAction::AddVoicePeer { id }]
        } else {
            Seq::empty()
        }),
{
}

/// Screens follow the server: an approved share is started and marks this client sharing, an
/// ended one is shown and marks it not sharing; watching starts on approval and stops when the
/// server ends it.
pub proof fn law_client_screens(s: SessionView, approved: bool)
    ensures
        spec_client_next(s, ServerPacket::Screen { approved }).use_screen == approved,
        spec_client_actions(s, ServerPacket::Screen { approved }) == (if approved {
            seq![ClientAction::StartScreen]
        } else {
            seq![ClientAction::ShowScreenStopped]
        }),
        spec_client_next(s, ServerPacket::Attach).attach_screen,
        spec_client_actions(s, ServerPacket::Attach) == seq![ClientAction::StartAttach],
        !spec_client_next(s, ServerPacket::Deattach).attach_screen,
        spec_client_actions(s, ServerPacket::Deattach) == seq![ClientAction::ShowDeattach],
{
}

} // verus!
