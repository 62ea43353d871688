//! The chat protocol's packet codes and the records they carry.

use vstd::prelude::*;

use crate::chat::role::Role;
use crate::chat::schema::{Offer, Reply};

verus! {

/// One `server.toml` key as the client edits it.
#[derive(Clone, PartialEq)]
pub struct ServerSetting {
    pub key: String,
    pub value: SettingValue,
    /// The heading the key sits under.
    pub section: String,
    /// The comment on the key's own line.
    pub description: String,
    /// Read only while the server starts up.
    pub restart: bool,
}

/// The three kinds of setting values.
#[derive(Clone, PartialEq)]
pub enum SettingValue {
    Toggle(bool),
    Number(i64),
    Text(String),
}

/// One stored message.
#[derive(Clone, PartialEq)]
pub struct StoredMessage {
    pub username: String,
    /// The message, or the file name when the line is an image.
    pub text: String,
    pub colors: MessageColors,
    /// Content hash of the picture.
    pub image: Option<[u8; 32]>,
}

/// Colors of a message.
#[derive(Clone, Copy, PartialEq, Eq, Structural)]
pub struct MessageColors {
    pub username_color: Option<u8>,
    pub message_color: Option<u8>,
}

/// One user's uploaded files.
#[derive(Clone, PartialEq)]
pub struct UserFile {
    pub username: String,
    pub id: usize,
    pub upload: Vec<(String, usize)>,
}

/// One user sharing a screen.
#[derive(Clone, PartialEq)]
pub struct UserScreen {
    pub username: String,
    pub id: usize,
}

/// One banned subject.
#[derive(Clone, PartialEq)]
pub struct BanEntry {
    pub id: usize,
    pub subject: String,
}

/// A user connected to the server.
#[derive(Clone, PartialEq)]
pub struct OnlineUser {
    pub username: String,
    pub username_color: Option<u8>,
    pub id: usize,
    pub channel: Option<String>,
    pub device: Option<Device>,
}

/// A registered user who is offline.
#[derive(Clone, PartialEq)]
pub struct OfflineUser {
    pub username: String,
    pub username_color: Option<u8>,
}

/// The kind of client a user connects with.
#[derive(Clone, Copy, PartialEq, Eq, Structural, Debug)]
pub enum Device {
    TUI,
    Desktop,
    Phone,
}

/// The control codes of the chat protocol.
pub enum PacketCode {
    MessageRequest { text: String },
    Message { text: String, username: String, id: usize, colors: MessageColors },
    KeyExchangeOffer { offer: Offer },
    KeyExchangeReply { reply: Reply },
    Welcome { min_pass: u64, max_uname: u64, min_uname: u64, server_name: String, server_uname: String, git_hash: String },
    Username { username: String, device: Option<Device> },
    Accept { id: usize, role: Role },
    Join { username: String, username_color: Option<u8>, id: usize, device: Option<Device> },
    Leave { username: String, id: usize },
    PrivateMessageRequest { text: String, id: usize },
    PrivateMessage { text: String, username: String, id: usize },
    PrivateMessageBack { text: String, username: String, id: usize },
    VoiceJoin { username: String, id: usize },
    Upload { hash: [u8; 32], token: [u8; 32], uid: u64 },
    DownloadRequest { id: usize, file_id: usize },
    ImageRequest { hash: [u8; 32], filename: String },
    Image { hash: [u8; 32], token: [u8; 32], uid: u64 },
    ImageDisplay { username: String, filename: String, hash: [u8; 32], data: Option<Vec<u8>>, username_color: Option<u8> },
    ImageData { hash: [u8; 32], data: Vec<u8> },
    Uploaded { filename: String, username: String },
    Attach { username: String, token: [u8; 32] },
    List { online: Vec<OnlineUser>, offline: Option<Vec<OfflineUser>> },
    ServerBans { users: Vec<BanEntry>, ips: Vec<BanEntry> },
    ServerRoleRequest { id: usize, role: Role },
    ServerRole { id: usize, role: Role, username: Option<String> },
    Colors { username: bool, color: u8 },
    ServerSettings { settings: Vec<ServerSetting>, save: bool },
    Version { version: String },
    UsernameRequest,
    LoginRequest,
    RegisterRequest,
    Login { password: String },
    Register { password: String },
    History { messages: Vec<StoredMessage> },
    Re { message: String },
    Channel { channel: Option<String> },
    ChannelCreated { name: String },
    ChannelDestroyed { name: String },
    VoiceClients { clients: Vec<(usize, String)> },
    VoiceLeave { id: usize },
    UploadRequest { hash: [u8; 32] },
    Download { token: [u8; 32] },
    ImageDuplicate { hash: [u8; 32] },
    ImageDataRequest { hash: [u8; 32] },
    FilesRequest,
    ListRequest,
    ScreensRequest,
    DeattachRequest,
    ScreenRequest,
    AttachRequest { id: usize },
    VoiceRequest,
    ServerBansRequest,
    ServerSettingsRequest,
    Files { users: Vec<UserFile> },
    Screens { users: Vec<UserScreen> },
    Deattach { username: String },
    Attached { username: String },
    Deattached { username: String },
    Screen { token: Option<[u8; 32]> },
    Screenshare { username: String },
    ScreenshareEnd { username: String },
    Voice { token: Option<[u8; 32]> },
    ServerKick { id: usize },
    ServerMute { id: usize },
    ServerBan { id: usize },
    ServerBanIp { id: usize },
    ServerPardon { id: usize },
    ServerPardonIp { id: usize },
    ServerSay { message: String },
    ServerSettingsSave { settings: Vec<ServerSetting> },
    FirstUser,
    Rekey,
    Disconnect,
    SpamWarning,
    RegisterDisabled,
    UploadLimit,
    Muted,
    InvalidUsage,
    InvalidFeature,
    KeepAlive,
    ServerRestart,
}

/// The name of a packet code's variant, as the server log shows it.
pub open spec fn code_name(code: &PacketCode) -> Seq<char> {
    match code {
        PacketCode::MessageRequest { .. } => "MessageRequest"@,
        PacketCode::Message { .. } => "Message"@,
        PacketCode::KeyExchangeOffer { .. } => "KeyExchangeOffer"@,
        PacketCode::KeyExchangeReply { .. } => "KeyExchangeReply"@,
        PacketCode::Welcome { .. } => "Welcome"@,
        PacketCode::Accept { .. } => "Accept"@,
        PacketCode::Leave { .. } => "Leave"@,
        PacketCode::PrivateMessageRequest { .. } => "PrivateMessageRequest"@,
        PacketCode::PrivateMessage { .. } => "PrivateMessage"@,
        PacketCode::PrivateMessageBack { .. } => "PrivateMessageBack"@,
        PacketCode::Re { .. } => "Re"@,
        PacketCode::VoiceJoin { .. } => "VoiceJoin"@,
        PacketCode::VoiceLeave { .. } => "VoiceLeave"@,
        PacketCode::UploadRequest { .. } => "UploadRequest"@,
        PacketCode::Upload { .. } => "Upload"@,
        PacketCode::DownloadRequest { .. } => "DownloadRequest"@,
        PacketCode::Download { .. } => "Download"@,
        PacketCode::ImageRequest { .. } => "ImageRequest"@,
        PacketCode::ImageDuplicate { .. } => "ImageDuplicate"@,
        PacketCode::Image { .. } => "Image"@,
        PacketCode::ImageDisplay { .. } => "ImageDisplay"@,
        PacketCode::ImageDataRequest { .. } => "ImageDataRequest"@,
        PacketCode::ImageData { .. } => "ImageData"@,
        PacketCode::Uploaded { .. } => "Uploaded"@,
        PacketCode::AttachRequest { .. } => "AttachRequest"@,
        PacketCode::Attach { .. } => "Attach"@,
        PacketCode::ServerBansRequest { .. } => "ServerBansRequest"@,
        PacketCode::ServerBans { .. } => "ServerBans"@,
        PacketCode::ServerRoleRequest { .. } => "ServerRoleRequest"@,
        PacketCode::ServerRole { .. } => "ServerRole"@,
        PacketCode::ServerSettingsRequest { .. } => "ServerSettingsRequest"@,
        PacketCode::ServerSettingsSave { .. } => "ServerSettingsSave"@,
        PacketCode::ServerSettings { .. } => "ServerSettings"@,
        PacketCode::Colors { .. } => "Colors"@,
        PacketCode::Version { .. } => "Version"@,
        PacketCode::UsernameRequest { .. } => "UsernameRequest"@,
        PacketCode::Username { .. } => "Username"@,
        PacketCode::LoginRequest { .. } => "LoginRequest"@,
        PacketCode::Login { .. } => "Login"@,
        PacketCode::RegisterRequest { .. } => "RegisterRequest"@,
        PacketCode::Register { .. } => "Register"@,
        PacketCode::History { .. } => "History"@,
        PacketCode::Channel { .. } => "Channel"@,
        PacketCode::ChannelCreated { .. } => "ChannelCreated"@,
        PacketCode::ChannelDestroyed { .. } => "ChannelDestroyed"@,
        PacketCode::VoiceClients { .. } => "VoiceClients"@,
        PacketCode::FilesRequest { .. } => "FilesRequest"@,
        PacketCode::Files { .. } => "Files"@,
        PacketCode::ScreensRequest { .. } => "ScreensRequest"@,
        PacketCode::Screens { .. } => "Screens"@,
        PacketCode::DeattachRequest { .. } => "DeattachRequest"@,
        PacketCode::Deattach { .. } => "Deattach"@,
        PacketCode::Attached { .. } => "Attached"@,
        PacketCode::Deattached { .. } => "Deattached"@,
        PacketCode::ScreenRequest { .. } => "ScreenRequest"@,
        PacketCode::Screen { .. } => "Screen"@,
        PacketCode::Screenshare { .. } => "Screenshare"@,
        PacketCode::ScreenshareEnd { .. } => "ScreenshareEnd"@,
        PacketCode::VoiceRequest { .. } => "VoiceRequest"@,
        PacketCode::Voice { .. } => "Voice"@,
        PacketCode::Join { .. } => "Join"@,
        PacketCode::ListRequest { .. } => "ListRequest"@,
        PacketCode::List { .. } => "List"@,
        PacketCode::ServerKick { .. } => "ServerKick"@,
        PacketCode::ServerMute { .. } => "ServerMute"@,
        PacketCode::ServerBan { .. } => "ServerBan"@,
        PacketCode::ServerBanIp { .. } => "ServerBanIp"@,
        PacketCode::ServerPardon { .. } => "ServerPardon"@,
        PacketCode::ServerPardonIp { .. } => "ServerPardonIp"@,
        PacketCode::ServerSay { .. } => "ServerSay"@,
        PacketCode::FirstUser { .. } => "FirstUser"@,
        PacketCode::Rekey { .. } => "Rekey"@,
        PacketCode::Disconnect { .. } => "Disconnect"@,
        PacketCode::SpamWarning { .. } => "SpamWarning"@,
        PacketCode::RegisterDisabled { .. } => "RegisterDisabled"@,
        PacketCode::UploadLimit { .. } => "UploadLimit"@,
        PacketCode::Muted { .. } => "Muted"@,
        PacketCode::InvalidUsage { .. } => "InvalidUsage"@,
        PacketCode::InvalidFeature { .. } => "InvalidFeature"@,
        PacketCode::KeepAlive { .. } => "KeepAlive"@,
        PacketCode::ServerRestart { .. } => "ServerRestart"@,
    }
}

/// The position of a packet code's variant in the declaration.
pub open spec fn code_tag(code: &PacketCode) -> nat {
    match code {
        PacketCode::MessageRequest { .. } => 0,
        PacketCode::Message { .. } => 1,
        PacketCode::KeyExchangeOffer { .. } => 2,
        PacketCode::KeyExchangeReply { .. } => 3,
        PacketCode::Welcome { .. } => 4,
        PacketCode::Accept { .. } => 5,
        PacketCode::Leave { .. } => 6,
        PacketCode::PrivateMessageRequest { .. } => 7,
        PacketCode::PrivateMessage { .. } => 8,
        PacketCode::PrivateMessageBack { .. } => 9,
        PacketCode::Re { .. } => 10,
        PacketCode::VoiceJoin { .. } => 11,
        PacketCode::VoiceLeave { .. } => 12,
        PacketCode::UploadRequest { .. } => 13,
        PacketCode::Upload { .. } => 14,
        PacketCode::DownloadRequest { .. } => 15,
        PacketCode::Download { .. } => 16,
        PacketCode::ImageRequest { .. } => 17,
        PacketCode::ImageDuplicate { .. } => 18,
        PacketCode::Image { .. } => 19,
        PacketCode::ImageDisplay { .. } => 20,
        PacketCode::ImageDataRequest { .. } => 21,
        PacketCode::ImageData { .. } => 22,
        PacketCode::Uploaded { .. } => 23,
        PacketCode::AttachRequest { .. } => 24,
        PacketCode::Attach { .. } => 25,
        PacketCode::ServerBansRequest { .. } => 26,
        PacketCode::ServerBans { .. } => 27,
        PacketCode::ServerRoleRequest { .. } => 28,
        PacketCode::ServerRole { .. } => 29,
        PacketCode::ServerSettingsRequest { .. } => 30,
        PacketCode::ServerSettingsSave { .. } => 31,
        PacketCode::ServerSettings { .. } => 32,
        PacketCode::Colors { .. } => 33,
        PacketCode::Version { .. } => 34,
        PacketCode::UsernameRequest { .. } => 35,
        PacketCode::Username { .. } => 36,
        PacketCode::LoginRequest { .. } => 37,
        PacketCode::Login { .. } => 38,
        PacketCode::RegisterRequest { .. } => 39,
        PacketCode::Register { .. } => 40,
        PacketCode::History { .. } => 41,
        PacketCode::Channel { .. } => 42,
        PacketCode::ChannelCreated { .. } => 43,
        PacketCode::ChannelDestroyed { .. } => 44,
        PacketCode::VoiceClients { .. } => 45,
        PacketCode::FilesRequest { .. } => 46,
        PacketCode::Files { .. } => 47,
        PacketCode::ScreensRequest { .. } => 48,
        PacketCode::Screens { .. } => 49,
        PacketCode::DeattachRequest { .. } => 50,
        PacketCode::Deattach { .. } => 51,
        PacketCode::Attached { .. } => 52,
        PacketCode::Deattached { .. } => 53,
        PacketCode::ScreenRequest { .. } => 54,
        PacketCode::Screen { .. } => 55,
        PacketCode::Screenshare { .. } => 56,
        PacketCode::ScreenshareEnd { .. } => 57,
        PacketCode::VoiceRequest { .. } => 58,
        PacketCode::Voice { .. } => 59,
        PacketCode::Join { .. } => 60,
        PacketCode::ListRequest { .. } => 61,
        PacketCode::List { .. } => 62,
        PacketCode::ServerKick { .. } => 63,
        PacketCode::ServerMute { .. } => 64,
        PacketCode::ServerBan { .. } => 65,
        PacketCode::ServerBanIp { .. } => 66,
        PacketCode::ServerPardon { .. } => 67,
        PacketCode::ServerPardonIp { .. } => 68,
        PacketCode::ServerSay { .. } => 69,
        PacketCode::FirstUser { .. } => 70,
        PacketCode::Rekey { .. } => 71,
        PacketCode::Disconnect { .. } => 72,
        PacketCode::SpamWarning { .. } => 73,
        PacketCode::RegisterDisabled { .. } => 74,
        PacketCode::UploadLimit { .. } => 75,
        PacketCode::Muted { .. } => 76,
        PacketCode::InvalidUsage { .. } => 77,
        PacketCode::InvalidFeature { .. } => 78,
        PacketCode::KeepAlive { .. } => 79,
        PacketCode::ServerRestart { .. } => 80,
    }
}

/// The code of the character at position `i` of `s`, or -1 past its ends.
pub open spec fn char_at(s: Seq<char>, i: int) -> int {
    if 0 <= i < s.len() {
        s[i] as int
    } else {
        -1
    }
}

/// What tells the packet codes' names apart: the length, the first character, the seventh,
/// and the last but one.
pub open spec fn name_key(s: Seq<char>) -> (int, int, int, int) {
    (s.len() as int, char_at(s, 0), char_at(s, 6), char_at(s, s.len() - 2))
}

/// The position of the variant whose name has the key `k` (see [`name_key`]).
pub open spec fn tag_of_key(k: (int, int, int, int)) -> nat {
    if k == (14int, 77int, 101int, 115int) {
        0
    } else if k == (7int, 77int, 101int, 103int) {
        1
    } else if k == (16int, 75int, 104int, 101int) {
        2
    } else if k == (16int, 75int, 104int, 108int) {
        3
    } else if k == (7int, 87int, 101int, 109int) {
        4
    } else if k == (6int, 65int, -1int, 112int) {
        5
    } else if k == (5int, 76int, -1int, 118int) {
        6
    } else if k == (21int, 80int, 101int, 115int) {
        7
    } else if k == (14int, 80int, 101int, 103int) {
        8
    } else if k == (18int, 80int, 101int, 99int) {
        9
    } else if k == (2int, 82int, -1int, 82int) {
        10
    } else if k == (9int, 86int, 111int, 105int) {
        11
    } else if k == (10int, 86int, 101int, 118int) {
        12
    } else if k == (13int, 85int, 82int, 115int) {
        13
    } else if k == (6int, 85int, -1int, 97int) {
        14
    } else if k == (15int, 68int, 97int, 115int) {
        15
    } else if k == (8int, 68int, 97int, 97int) {
        16
    } else if k == (12int, 73int, 101int, 115int) {
        17
    } else if k == (14int, 73int, 117int, 116int) {
        18
    } else if k == (5int, 73int, -1int, 103int) {
        19
    } else if k == (12int, 73int, 105int, 97int) {
        20
    } else if k == (16int, 73int, 97int, 115int) {
        21
    } else if k == (9int, 73int, 97int, 116int) {
        22
    } else if k == (8int, 85int, 101int, 101int) {
        23
    } else if k == (13int, 65int, 82int, 115int) {
        24
    } else if k == (6int, 65int, -1int, 99int) {
        25
    } else if k == (17int, 83int, 66int, 115int) {
        26
    } else if k == (10int, 83int, 66int, 110int) {
        27
    } else if k == (17int, 83int, 82int, 115int) {
        28
    } else if k == (10int, 83int, 82int, 108int) {
        29
    } else if k == (21int, 83int, 83int, 115int) {
        30
    } else if k == (18int, 83int, 83int, 118int) {
        31
    } else if k == (14int, 83int, 83int, 103int) {
        32
    } else if k == (6int, 67int, -1int, 114int) {
        33
    } else if k == (7int, 86int, 110int, 111int) {
        34
    } else if k == (15int, 85int, 109int, 115int) {
        35
    } else if k == (8int, 85int, 109int, 109int) {
        36
    } else if k == (12int, 76int, 101int, 115int) {
        37
    } else if k == (5int, 76int, -1int, 105int) {
        38
    } else if k == (15int, 82int, 101int, 115int) {
        39
    } else if k == (8int, 82int, 101int, 101int) {
        40
    } else if k == (7int, 72int, 121int, 114int) {
        41
    } else if k == (7int, 67int, 108int, 101int) {
        42
    } else if k == (14int, 67int, 108int, 101int) {
        43
    } else if k == (16int, 67int, 108int, 101int) {
        44
    } else if k == (12int, 86int, 108int, 116int) {
        45
    } else if k == (12int, 70int, 101int, 115int) {
        46
    } else if k == (5int, 70int, -1int, 101int) {
        47
    } else if k == (14int, 83int, 115int, 115int) {
        48
    } else if k == (7int, 83int, 115int, 110int) {
        49
    } else if k == (15int, 68int, 99int, 115int) {
        50
    } else if k == (8int, 68int, 99int, 99int) {
        51
    } else if k == (8int, 65int, 101int, 101int) {
        52
    } else if k == (10int, 68int, 99int, 101int) {
        53
    } else if k == (13int, 83int, 82int, 115int) {
        54
    } else if k == (6int, 83int, -1int, 101int) {
        55
    } else if k == (11int, 83int, 115int, 114int) {
        56
    } else if k == (14int, 83int, 115int, 110int) {
        57
    } else if k == (12int, 86int, 101int, 115int) {
        58
    } else if k == (5int, 86int, -1int, 99int) {
        59
    } else if k == (4int, 74int, -1int, 105int) {
        60
    } else if k == (11int, 76int, 113int, 115int) {
        61
    } else if k == (4int, 76int, -1int, 115int) {
        62
    } else if k == (10int, 83int, 75int, 99int) {
        63
    } else if k == (10int, 83int, 77int, 116int) {
        64
    } else if k == (9int, 83int, 66int, 97int) {
        65
    } else if k == (11int, 83int, 66int, 73int) {
        66
    } else if k == (12int, 83int, 80int, 111int) {
        67
    } else if k == (14int, 83int, 80int, 73int) {
        68
    } else if k == (9int, 83int, 83int, 97int) {
        69
    } else if k == (9int, 70int, 115int, 101int) {
        70
    } else if k == (5int, 82int, -1int, 101int) {
        71
    } else if k == (10int, 68int, 110int, 99int) {
        72
    } else if k == (11int, 83int, 114int, 110int) {
        73
    } else if k == (16int, 82int, 101int, 101int) {
        74
    } else if k == (11int, 85int, 76int, 105int) {
        75
    } else if k == (5int, 77int, -1int, 101int) {
        76
    } else if k == (12int, 73int, 100int, 103int) {
        77
    } else if k == (14int, 73int, 100int, 114int) {
        78
    } else if k == (9int, 75int, 105int, 118int) {
        79
    } else {
        80
    }
}

/// Every packet code has a name, and the name tells the variant: two codes of different
/// variants never share a name.
#[verifier::rlimit(60)]
pub proof fn law_code_names_distinct(a: &PacketCode, b: &PacketCode)
    ensures
        code_name(a).len() > 0,
        code_name(a) == code_name(b) ==> code_tag(a) == code_tag(b),
{
    reveal_strlit("MessageRequest");
    reveal_strlit("Message");
    reveal_strlit("KeyExchangeOffer");
    reveal_strlit("KeyExchangeReply");
    reveal_strlit("Welcome");
    reveal_strlit("Accept");
    reveal_strlit("Leave");
    reveal_strlit("PrivateMessageRequest");
    reveal_strlit("PrivateMessage");
    reveal_strlit("PrivateMessageBack");
    reveal_strlit("Re");
    reveal_strlit("VoiceJoin");
    reveal_strlit("VoiceLeave");
    reveal_strlit("UploadRequest");
    reveal_strlit("Upload");
    reveal_strlit("DownloadRequest");
    reveal_strlit("Download");
    reveal_strlit("ImageRequest");
    reveal_strlit("ImageDuplicate");
    reveal_strlit("Image");
    reveal_strlit("ImageDisplay");
    reveal_strlit("ImageDataRequest");
    reveal_strlit("ImageData");
    reveal_strlit("Uploaded");
    reveal_strlit("AttachRequest");
    reveal_strlit("Attach");
    reveal_strlit("ServerBansRequest");
    reveal_strlit("ServerBans");
    reveal_strlit("ServerRoleRequest");
    reveal_strlit("ServerRole");
    reveal_strlit("ServerSettingsRequest");
    reveal_strlit("ServerSettingsSave");
    reveal_strlit("ServerSettings");
    reveal_strlit("Colors");
    reveal_strlit("Version");
    reveal_strlit("UsernameRequest");
    reveal_strlit("Username");
    reveal_strlit("LoginRequest");
    reveal_strlit("Login");
    reveal_strlit("RegisterRequest");
    reveal_strlit("Register");
    reveal_strlit("History");
    reveal_strlit("Channel");
    reveal_strlit("ChannelCreated");
    reveal_strlit("ChannelDestroyed");
    reveal_strlit("VoiceClients");
    reveal_strlit("FilesRequest");
    reveal_strlit("Files");
    reveal_strlit("ScreensRequest");
    reveal_strlit("Screens");
    reveal_strlit("DeattachRequest");
    reveal_strlit("Deattach");
    reveal_strlit("Attached");
    reveal_strlit("Deattached");
    reveal_strlit("ScreenRequest");
    reveal_strlit("Screen");
    reveal_strlit("Screenshare");
    reveal_strlit("ScreenshareEnd");
    reveal_strlit("VoiceRequest");
    reveal_strlit("Voice");
    reveal_strlit("Join");
    reveal_strlit("ListRequest");
    reveal_strlit("List");
    reveal_strlit("ServerKick");
    reveal_strlit("ServerMute");
    reveal_strlit("ServerBan");
    reveal_strlit("ServerBanIp");
    reveal_strlit("ServerPardon");
    reveal_strlit("ServerPardonIp");
    reveal_strlit("ServerSay");
    reveal_strlit("FirstUser");
    reveal_strlit("Rekey");
    reveal_strlit("Disconnect");
    reveal_strlit("SpamWarning");
    reveal_strlit("RegisterDisabled");
    reveal_strlit("UploadLimit");
    reveal_strlit("Muted");
    reveal_strlit("InvalidUsage");
    reveal_strlit("InvalidFeature");
    reveal_strlit("KeepAlive");
    reveal_strlit("ServerRestart");
    assert(tag_of_key(name_key(code_name(a))) == code_tag(a));
    assert(tag_of_key(name_key(code_name(b))) == code_tag(b));
}

impl PacketCode {
    /// The variant's name, for the server log.
    pub fn name(&self) -> (r: &'static str)
        ensures
            r@ == code_name(self),
    {
        match self {
            PacketCode::MessageRequest { .. } => "MessageRequest",
            PacketCode::Message { .. } => "Message",
            PacketCode::KeyExchangeOffer { .. } => "KeyExchangeOffer",
            PacketCode::KeyExchangeReply { .. } => "KeyExchangeReply",
            PacketCode::Welcome { .. } => "Welcome",
            PacketCode::Accept { .. } => "Accept",
            PacketCode::Leave { .. } => "Leave",
            PacketCode::PrivateMessageRequest { .. } => "PrivateMessageRequest",
            PacketCode::PrivateMessage { .. } => "PrivateMessage",
            PacketCode::PrivateMessageBack { .. } => "PrivateMessageBack",
            PacketCode::Re { .. } => "Re",
            PacketCode::VoiceJoin { .. } => "VoiceJoin",
            PacketCode::VoiceLeave { .. } => "VoiceLeave",
            PacketCode::UploadRequest { .. } => "UploadRequest",
            PacketCode::Upload { .. } => "Upload",
            PacketCode::DownloadRequest { .. } => "DownloadRequest",
            PacketCode::Download { .. } => "Download",
            PacketCode::ImageRequest { .. } => "ImageRequest",
            PacketCode::ImageDuplicate { .. } => "ImageDuplicate",
            PacketCode::Image { .. } => "Image",
            PacketCode::ImageDisplay { .. } => "ImageDisplay",
            PacketCode::ImageDataRequest { .. } => "ImageDataRequest",
            PacketCode::ImageData { .. } => "ImageData",
            PacketCode::Uploaded { .. } => "Uploaded",
            PacketCode::AttachRequest { .. } => "AttachRequest",
            PacketCode::Attach { .. } => "Attach",
            PacketCode::ServerBansRequest { .. } => "ServerBansRequest",
            PacketCode::ServerBans { .. } => "ServerBans",
            PacketCode::ServerRoleRequest { .. } => "ServerRoleRequest",
            PacketCode::ServerRole { .. } => "ServerRole",
            PacketCode::ServerSettingsRequest { .. } => "ServerSettingsRequest",
            PacketCode::ServerSettingsSave { .. } => "ServerSettingsSave",
            PacketCode::ServerSettings { .. } => "ServerSettings",
            PacketCode::Colors { .. } => "Colors",
            PacketCode::Version { .. } => "Version",
            PacketCode::UsernameRequest { .. } => "UsernameRequest",
            PacketCode::Username { .. } => "Username",
            PacketCode::LoginRequest { .. } => "LoginRequest",
            PacketCode::Login { .. } => "Login",
            PacketCode::RegisterRequest { .. } => "RegisterRequest",
            PacketCode::Register { .. } => "Register",
            PacketCode::History { .. } => "History",
            PacketCode::Channel { .. } => "Channel",
            PacketCode::ChannelCreated { .. } => "ChannelCreated",
            PacketCode::ChannelDestroyed { .. } => "ChannelDestroyed",
            PacketCode::VoiceClients { .. } => "VoiceClients",
            PacketCode::FilesRequest { .. } => "FilesRequest",
            PacketCode::Files { .. } => "Files",
            PacketCode::ScreensRequest { .. } => "ScreensRequest",
            PacketCode::Screens { .. } => "Screens",
            PacketCode::DeattachRequest { .. } => "DeattachRequest",
            PacketCode::Deattach { .. } => "Deattach",
            PacketCode::Attached { .. } => "Attached",
            PacketCode::Deattached { .. } => "Deattached",
            PacketCode::ScreenRequest { .. } => "ScreenRequest",
            PacketCode::Screen { .. } => "Screen",
            PacketCode::Screenshare { .. } => "Screenshare",
            PacketCode::ScreenshareEnd { .. } => "ScreenshareEnd",
            PacketCode::VoiceRequest { .. } => "VoiceRequest",
            PacketCode::Voice { .. } => "Voice",
            PacketCode::Join { .. } => "Join",
            PacketCode::ListRequest { .. } => "ListRequest",
            PacketCode::List { .. } => "List",
            PacketCode::ServerKick { .. } => "ServerKick",
            PacketCode::ServerMute { .. } => "ServerMute",
            PacketCode::ServerBan { .. } => "ServerBan",
            PacketCode::ServerBanIp { .. } => "ServerBanIp",
            PacketCode::ServerPardon { .. } => "ServerPardon",
            PacketCode::ServerPardonIp { .. } => "ServerPardonIp",
            PacketCode::ServerSay { .. } => "ServerSay",
            PacketCode::FirstUser { .. } => "FirstUser",
            PacketCode::Rekey { .. } => "Rekey",
            PacketCode::Disconnect { .. } => "Disconnect",
            PacketCode::SpamWarning { .. } => "SpamWarning",
            PacketCode::RegisterDisabled { .. } => "RegisterDisabled",
            PacketCode::UploadLimit { .. } => "UploadLimit",
            PacketCode::Muted { .. } => "Muted",
            PacketCode::InvalidUsage { .. } => "InvalidUsage",
            PacketCode::InvalidFeature { .. } => "InvalidFeature",
            PacketCode::KeepAlive { .. } => "KeepAlive",
            PacketCode::ServerRestart { .. } => "ServerRestart",
        }
    }
}

} // verus!
