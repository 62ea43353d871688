//! A client connection as the server keeps it: authenticating, then authenticated.
//!
//! The handles the server holds for a connection are type parameters: `S` the writing half of
//! its socket, `H` a handle to a running task, `K` the session keys, `T` an instant and `A` the
//! peer address. Tasks handed back by these methods are the caller's to stop.

use vstd::prelude::*;

use std::collections::HashMap;

use crate::chat::role::Role;
use crate::chat::screen_options::name_view;

verus! {

broadcast use vstd::std_specs::hash::group_hash_axioms;

/// A screen share a client watches: the stream its frames go to, the sharer's chat id, and the
/// token of the attachment.
pub struct Attach<S> {
    pub stream: S,
    pub target_id: usize,
    pub token: [u8; 32],
}

/// A client connection.
pub enum Connection<S, H, K, T, A> {
    /// A client that has logged in.
    Authenticated {
        write_stream: S,
        /// The task that handles the connection.
        task: H,
        /// The file transfers running for the client, by transfer id.
        file_streams: HashMap<u64, H>,
        /// The task receiving the client's screen share, if it shares.
        screen_stream: Option<H>,
        peer_addr: A,
        username: String,
        role: Role,
        /// The chat id.
        id: usize,
        keys: K,
        attached_screen: Option<Attach<S>>,
        /// When the client last sent a counted packet.
        last_activity: T,
        last_key_exchange: T,
        spam_violations: usize,
        channel: Option<String>,
        /// The last sequence number taken from the client.
        seq: usize,
        /// The last sequence number sent to the client.
        server_seq: usize,
        /// Whether the client answered the last keepalive.
        alive: bool,
        muted: bool,
    },
    /// A client still authenticating.
    NonAuthenticated {
        write_stream: S,
        task: H,
        peer_addr: A,
        /// The username it asked for, once it asked.
        username: Option<String>,
        /// The session keys, once exchanged.
        keys: Option<K>,
        /// The key that hides packets sent before the keys are exchanged.
        obfuscation_key: [u8; 32],
        last_activity: T,
        seq: usize,
        /// When it connected.
        connect: T,
    },
}

impl<S, H, K, T, A> Connection<S, H, K, T, A> {
    /// The writing half of the socket.
    pub open spec fn stream_of(&self) -> S {
        match *self {
            Connection::Authenticated { write_stream, .. } => write_stream,
            Connection::NonAuthenticated { write_stream, .. } => write_stream,
        }
    }

    /// The handling task.
    pub open spec fn task_of(&self) -> H {
        match *self {
            Connection::Authenticated { task, .. } => task,
            Connection::NonAuthenticated { task, .. } => task,
        }
    }

    /// The peer address.
    pub open spec fn addr_of(&self) -> A {
        match *self {
            Connection::Authenticated { peer_addr, .. } => peer_addr,
            Connection::NonAuthenticated { peer_addr, .. } => peer_addr,
        }
    }

    /// The session keys, once exchanged.
    pub open spec fn keys_of(&self) -> Option<K> {
        match *self {
            Connection::Authenticated { keys, .. } => Some(keys),
            Connection::NonAuthenticated { keys, .. } => keys,
        }
    }

    /// When the client last sent a counted packet.
    pub open spec fn activity_of(&self) -> T {
        match *self {
            Connection::Authenticated { last_activity, .. } => last_activity,
            Connection::NonAuthenticated { last_activity, .. } => last_activity,
        }
    }

    /// The chat id, once authenticated.
    pub open spec fn id_of(&self) -> Option<usize> {
        match *self {
            Connection::Authenticated { id, .. } => Some(id),
            Connection::NonAuthenticated { .. } => None,
        }
    }

    /// The role, once authenticated.
    pub open spec fn role_of(&self) -> Option<Role> {
        match *self {
            Connection::Authenticated { role, .. } => Some(role),
            Connection::NonAuthenticated { .. } => None,
        }
    }

    /// The spam violations, once authenticated.
    pub open spec fn violations_of(&self) -> Option<usize> {
        match *self {
            Connection::Authenticated { spam_violations, .. } => Some(spam_violations),
            Connection::NonAuthenticated { .. } => None,
        }
    }

    /// The last sequence number taken from the client.
    pub open spec fn seq_of(&self) -> usize {
        match *self {
            Connection::Authenticated { seq, .. } => seq,
            Connection::NonAuthenticated { seq, .. } => seq,
        }
    }

    /// The last sequence number sent to the client, once authenticated.
    pub open spec fn server_seq_of(&self) -> Option<usize> {
        match *self {
            Connection::Authenticated { server_seq, .. } => Some(server_seq),
            Connection::NonAuthenticated { .. } => None,
        }
    }

    /// Whether the client answered the last keepalive (never while authenticating).
    pub open spec fn alive_of(&self) -> bool {
        match *self {
            Connection::Authenticated { alive, .. } => alive,
            Connection::NonAuthenticated { .. } => false,
        }
    }

    /// Whether the client is muted (never while authenticating).
    pub open spec fn muted_of(&self) -> bool {
        match *self {
            Connection::Authenticated { muted, .. } => muted,
            Connection::NonAuthenticated { .. } => false,
        }
    }

    /// The running file transfers of an authenticated connection.
    pub open spec fn streams_of(&self) -> HashMap<u64, H> {
        match *self {
            Connection::Authenticated { file_streams, .. } => file_streams,
            Connection::NonAuthenticated { .. } => arbitrary(),
        }
    }

    /// The share an authenticated connection watches.
    pub open spec fn attached_of(&self) -> Option<Attach<S>> {
        match *self {
            Connection::Authenticated { attached_screen, .. } => attached_screen,
            Connection::NonAuthenticated { .. } => None,
        }
    }

    /// The connection with the fields that change while it lives replaced: the socket, task,
    /// address, name, id, keys, channel and times of connection and key exchange stay. A
    /// connection still authenticating only takes `last_activity` and `seq`.
    pub open spec fn rebuilt(
        self,
        file_streams: HashMap<u64, H>,
        screen_stream: Option<H>,
        role: Role,
        attached_screen: Option<Attach<S>>,
        last_activity: T,
        spam_violations: usize,
        seq: usize,
        server_seq: usize,
        alive: bool,
        muted: bool,
    ) -> Self {
        match self {
            Connection::Authenticated {
                write_stream,
                task,
                peer_addr,
                username,
                id,
                keys,
                last_key_exchange,
                channel,
                ..
            } => Connection::Authenticated {
                write_stream,
                task,
                file_streams,
                screen_stream,
                peer_addr,
                username,
                role,
                id,
                keys,
                attached_screen,
                last_activity,
                last_key_exchange,
                spam_violations,
                channel,
                seq,
                server_seq,
                alive,
                muted,
            },
            Connection::NonAuthenticated { write_stream, task, peer_addr, username, keys, obfuscation_key, connect, .. } =>
                Connection::NonAuthenticated {
                write_stream,
                task,
                peer_addr,
                username,
                keys,
                obfuscation_key,
                last_activity,
                seq,
                connect,
            },
        }
    }

    /// The connection last active at `at`.
    pub open spec fn with_activity(self, at: T) -> Self {
        self.rebuilt(
            self.streams_of(),
            self.share_task_of(),
            self.role_of().unwrap_or(Role::User),
            self.attached_of(),
            at,
            self.violations_of().unwrap_or(0),
            self.seq_of(),
            self.server_seq_of().unwrap_or(0),
            self.alive_of(),
            self.muted_of(),
        )
    }

    /// An authenticated connection with `count` spam violations.
    pub open spec fn with_violations(self, count: usize) -> Self {
        self.rebuilt(
            self.streams_of(),
            self.share_task_of(),
            self.role_of().unwrap_or(Role::User),
            self.attached_of(),
            self.activity_of(),
            count,
            self.seq_of(),
            self.server_seq_of().unwrap_or(0),
            self.alive_of(),
            self.muted_of(),
        )
    }

    /// The connection with `value` as the last sequence number taken.
    pub open spec fn with_seq(self, value: usize) -> Self {
        self.rebuilt(
            self.streams_of(),
            self.share_task_of(),
            self.role_of().unwrap_or(Role::User),
            self.attached_of(),
            self.activity_of(),
            self.violations_of().unwrap_or(0),
            value,
            self.server_seq_of().unwrap_or(0),
            self.alive_of(),
            self.muted_of(),
        )
    }

    /// An authenticated connection with `value` as the last sequence number sent.
    pub open spec fn with_server_seq(self, value: usize) -> Self {
        self.rebuilt(
            self.streams_of(),
            self.share_task_of(),
            self.role_of().unwrap_or(Role::User),
            self.attached_of(),
            self.activity_of(),
            self.violations_of().unwrap_or(0),
            self.seq_of(),
            value,
            self.alive_of(),
            self.muted_of(),
        )
    }

    /// An authenticated connection marked alive or not.
    pub open spec fn with_alive(self, alive: bool) -> Self {
        self.rebuilt(
            self.streams_of(),
            self.share_task_of(),
            self.role_of().unwrap_or(Role::User),
            self.attached_of(),
            self.activity_of(),
            self.violations_of().unwrap_or(0),
            self.seq_of(),
            self.server_seq_of().unwrap_or(0),
            alive,
            self.muted_of(),
        )
    }

    /// An authenticated connection watching `attached`.
    pub open spec fn with_attached(self, attached: Option<Attach<S>>) -> Self {
        self.rebuilt(
            self.streams_of(),
            self.share_task_of(),
            self.role_of().unwrap_or(Role::User),
            attached,
            self.activity_of(),
            self.violations_of().unwrap_or(0),
            self.seq_of(),
            self.server_seq_of().unwrap_or(0),
            self.alive_of(),
            self.muted_of(),
        )
    }

    /// An authenticated connection whose share is received by `task`.
    pub open spec fn with_share_task(self, task: Option<H>) -> Self {
        self.rebuilt(
            self.streams_of(),
            task,
            self.role_of().unwrap_or(Role::User),
            self.attached_of(),
            self.activity_of(),
            self.violations_of().unwrap_or(0),
            self.seq_of(),
            self.server_seq_of().unwrap_or(0),
            self.alive_of(),
            self.muted_of(),
        )
    }

    /// An authenticated connection muted or not.
    pub open spec fn with_muted(self, muted: bool) -> Self {
        self.rebuilt(
            self.streams_of(),
            self.share_task_of(),
            self.role_of().unwrap_or(Role::User),
            self.attached_of(),
            self.activity_of(),
            self.violations_of().unwrap_or(0),
            self.seq_of(),
            self.server_seq_of().unwrap_or(0),
            self.alive_of(),
            muted,
        )
    }

    /// An authenticated connection with `role`.
    pub open spec fn with_role(self, role: Role) -> Self {
        self.rebuilt(
            self.streams_of(),
            self.share_task_of(),
            role,
            self.attached_of(),
            self.activity_of(),
            self.violations_of().unwrap_or(0),
            self.seq_of(),
            self.server_seq_of().unwrap_or(0),
            self.alive_of(),
            self.muted_of(),
        )
    }

    /// An authenticated connection running the transfers `streams`.
    pub open spec fn with_streams(self, streams: HashMap<u64, H>) -> Self {
        self.rebuilt(
            streams,
            self.share_task_of(),
            self.role_of().unwrap_or(Role::User),
            self.attached_of(),
            self.activity_of(),
            self.violations_of().unwrap_or(0),
            self.seq_of(),
            self.server_seq_of().unwrap_or(0),
            self.alive_of(),
            self.muted_of(),
        )
    }

    /// The task receiving the client's screen share, if it shares.
    pub open spec fn share_task_of(&self) -> Option<H> {
        match *self {
            Connection::Authenticated { screen_stream, .. } => screen_stream,
            Connection::NonAuthenticated { .. } => None,
        }
    }
}

impl<S, H, K, T, A> Connection<S, H, K, T, A> {
    /// A connection that just came in: nothing exchanged yet, last active when it connected.
    pub fn new(write_stream: S, task: H, peer_addr: A, obfuscation_key: [u8; 32], now: T) -> (r: Self)
        where T: Copy
        ensures
            r == (Connection::<S, H, K, T, A>::NonAuthenticated {
                write_stream,
                task,
                peer_addr,
                username: None,
                keys: None,
                obfuscation_key,
                last_activity: now,
                seq: 0,
                connect: now,
            }),
    {
        Connection::NonAuthenticated {
            write_stream,
            task,
            peer_addr,
            username: None,
            keys: None,
            obfuscation_key,
            last_activity: now,
            seq: 0,
            connect: now,
        }
    }

    /// The writing half of the connection's socket.
    pub fn write_stream(&self) -> (r: &S)
        ensures
            *r == match *self {
                Connection::Authenticated { write_stream, .. } => write_stream,
                Connection::NonAuthenticated { write_stream, .. } => write_stream,
            },
    {
        match self {
            Connection::Authenticated { write_stream, .. } => write_stream,
            Connection::NonAuthenticated { write_stream, .. } => write_stream,
        }
    }

    /// The task that handles the connection.
    pub fn task(&self) -> (r: &H)
        ensures
            *r == match *self {
                Connection::Authenticated { task, .. } => task,
                Connection::NonAuthenticated { task, .. } => task,
            },
    {
        match self {
            Connection::Authenticated { task, .. } => task,
            Connection::NonAuthenticated { task, .. } => task,
        }
    }

    /// The running file transfers, once authenticated.
    pub fn file_streams(&self) -> (r: Option<&HashMap<u64, H>>)
        ensures
            match *self {
                Connection::Authenticated { file_streams, .. } => r == Some(&file_streams),
                Connection::NonAuthenticated { .. } => r is None,
            },
    {
        match self {
            Connection::Authenticated { file_streams, .. } => Some(file_streams),
            Connection::NonAuthenticated { .. } => None,
        }
    }

    /// The peer address.
    pub fn peer_addr(&self) -> (r: &A)
        ensures
            *r == match *self {
                Connection::Authenticated { peer_addr, .. } => peer_addr,
                Connection::NonAuthenticated { peer_addr, .. } => peer_addr,
            },
    {
        match self {
            Connection::Authenticated { peer_addr, .. } => peer_addr,
            Connection::NonAuthenticated { peer_addr, .. } => peer_addr,
        }
    }

    /// The username: the one logged in with, or the one asked for while authenticating.
    pub fn username(&self) -> (r: Option<&String>)
        ensures
            match *self {
                Connection::Authenticated { username, .. } => r == Some(&username),
                Connection::NonAuthenticated { username, .. } => match username {
                    Some(u) => r == Some(&u),
                    None => r is None,
                },
            },
    {
        match self {
            Connection::Authenticated { username, .. } => Some(username),
            Connection::NonAuthenticated { username, .. } => match username {
                Some(u) => Some(u),
                None => None,
            },
        }
    }

    /// Records the username a client still authenticating asked for (an authenticated client
    /// keeps the name it logged in with, and must not be given another).
    pub fn set_requested_username(&mut self, name: Option<String>)
        requires
            !old(self).is_authenticated(),
        ensures
            match *old(self) {
                Connection::NonAuthenticated {
                    write_stream,
                    task,
                    peer_addr,
                    keys,
                    obfuscation_key,
                    last_activity,
                    seq,
                    connect,
                    ..
                } => *final(self) == Connection::<S, H, K, T, A>::NonAuthenticated {
                    write_stream,
                    task,
                    peer_addr,
                    username: name,
                    keys,
                    obfuscation_key,
                    last_activity,
                    seq,
                    connect,
                },
                Connection::Authenticated { .. } => false,
            },
    {
        match self {
            Connection::NonAuthenticated { username, .. } => {
                *username = name;
            },
            Connection::Authenticated { .. } => {},
        }
    }

    /// The role, once authenticated.
    pub fn role(&self) -> (r: Option<&Role>)
        ensures
            match *self {
                Connection::Authenticated { role, .. } => r == Some(&role),
                Connection::NonAuthenticated { .. } => r is None,
            },
    {
        match self {
            Connection::Authenticated { role, .. } => Some(role),
            Connection::NonAuthenticated { .. } => None,
        }
    }

    /// The chat id, once authenticated.
    pub fn id(&self) -> (r: Option<&usize>)
        ensures
            match *self {
                Connection::Authenticated { id, .. } => r == Some(&id),
                Connection::NonAuthenticated { .. } => r is None,
            },
    {
        match self {
            Connection::Authenticated { id, .. } => Some(id),
            Connection::NonAuthenticated { .. } => None,
        }
    }

    /// The session keys, once exchanged.
    pub fn keys(&self) -> (r: Option<&K>)
        ensures
            match *self {
                Connection::Authenticated { keys, .. } => r == Some(&keys),
                Connection::NonAuthenticated { keys, .. } => match keys {
                    Some(k) => r == Some(&k),
                    None => r is None,
                },
            },
    {
        match self {
            Connection::Authenticated { keys, .. } => Some(keys),
            Connection::NonAuthenticated { keys, .. } => match keys {
                Some(k) => Some(k),
                None => None,
            },
        }
    }

    /// The key that hides plain packets, while authenticating.
    pub fn obfuscation_key(&self) -> (r: Option<&[u8; 32]>)
        ensures
            match *self {
                Connection::Authenticated { .. } => r is None,
                Connection::NonAuthenticated { obfuscation_key, .. } => r == Some(&obfuscation_key),
            },
    {
        match self {
            Connection::Authenticated { .. } => None,
            Connection::NonAuthenticated { obfuscation_key, .. } => Some(obfuscation_key),
        }
    }

    /// When the client last sent a counted packet.
    pub fn last_activity(&self) -> (r: &T)
        ensures
            *r == match *self {
                Connection::Authenticated { last_activity, .. } => last_activity,
                Connection::NonAuthenticated { last_activity, .. } => last_activity,
            },
    {
        match self {
            Connection::Authenticated { last_activity, .. } => last_activity,
            Connection::NonAuthenticated { last_activity, .. } => last_activity,
        }
    }

    /// Marks the client as last active at `at`.
    pub fn set_last_activity(&mut self, at: T)
        ensures
            *final(self) == old(self).with_activity(at),
    {
        match self {
            Connection::Authenticated { last_activity, .. } => {
                *last_activity = at;
            },
            Connection::NonAuthenticated { last_activity, .. } => {
                *last_activity = at;
            },
        }
    }

    /// When the keys were last exchanged, once authenticated.
    pub fn last_key_exchange(&self) -> (r: Option<&T>)
        ensures
            match *self {
                Connection::Authenticated { last_key_exchange, .. } => r == Some(&last_key_exchange),
                Connection::NonAuthenticated { .. } => r is None,
            },
    {
        match self {
            Connection::Authenticated { last_key_exchange, .. } => Some(last_key_exchange),
            Connection::NonAuthenticated { .. } => None,
        }
    }

    /// The spam violations counted against the client, once authenticated.
    pub fn spam_violations(&self) -> (r: Option<&usize>)
        ensures
            match *self {
                Connection::Authenticated { spam_violations, .. } => r == Some(&spam_violations),
                Connection::NonAuthenticated { .. } => r is None,
            },
    {
        match self {
            Connection::Authenticated { spam_violations, .. } => Some(spam_violations),
            Connection::NonAuthenticated { .. } => None,
        }
    }

    /// Sets the spam violations of an authenticated client; one still authenticating has none.
    pub fn set_spam_violations(&mut self, count: usize)
        ensures
            *final(self) == old(self).with_violations(count),
    {
        match self {
            Connection::Authenticated { spam_violations, .. } => {
                *spam_violations = count;
            },
            Connection::NonAuthenticated { .. } => {},
        }
    }

    /// The channel; a client still authenticating is in none.
    pub fn channel(&self) -> (r: Option<&String>)
        ensures
            match *self {
                Connection::Authenticated { channel, .. } => match channel {
                    Some(c) => r == Some(&c),
                    None => r is None,
                },
                Connection::NonAuthenticated { .. } => r is None,
            },
    {
        match self {
            Connection::Authenticated { channel, .. } => match channel {
                Some(c) => Some(c),
                None => None,
            },
            Connection::NonAuthenticated { .. } => None,
        }
    }

    /// The last sequence number taken from the client.
    pub fn seq(&self) -> (r: usize)
        ensures
            r == match *self {
                Connection::Authenticated { seq, .. } => seq,
                Connection::NonAuthenticated { seq, .. } => seq,
            },
    {
        match self {
            Connection::Authenticated { seq, .. } => *seq,
            Connection::NonAuthenticated { seq, .. } => *seq,
        }
    }

    /// Records the last sequence number taken from the client.
    pub fn set_seq(&mut self, value: usize)
        ensures
            *final(self) == old(self).with_seq(value),
    {
        match self {
            Connection::Authenticated { seq, .. } => {
                *seq = value;
            },
            Connection::NonAuthenticated { seq, .. } => {
                *seq = value;
            },
        }
    }

    /// The last sequence number sent to the client, once authenticated.
    pub fn server_seq(&self) -> (r: Option<usize>)
        ensures
            match *self {
                Connection::Authenticated { server_seq, .. } => r == Some(server_seq),
                Connection::NonAuthenticated { .. } => r is None,
            },
    {
        match self {
            Connection::Authenticated { server_seq, .. } => Some(*server_seq),
            Connection::NonAuthenticated { .. } => None,
        }
    }

    /// Records the last sequence number sent to an authenticated client.
    pub fn set_server_seq(&mut self, value: usize)
        ensures
            *final(self) == old(self).with_server_seq(value),
    {
        match self {
            Connection::Authenticated { server_seq, .. } => {
                *server_seq = value;
            },
            Connection::NonAuthenticated { .. } => {},
        }
    }

    /// Whether the client has logged in.
    pub open spec fn spec_is_authenticated(&self) -> bool {
        *self is Authenticated
    }

    /// Whether the client has logged in.
    #[verifier::when_used_as_spec(spec_is_authenticated)]
    pub fn is_authenticated(&self) -> (r: bool)
        ensures
            r == self.spec_is_authenticated(),
    {
        match self {
            Connection::Authenticated { .. } => true,
            Connection::NonAuthenticated { .. } => false,
        }
    }

    /// Whether the connection has been idle too long (see [`is_inactive`](crate::chat::server::is_inactive)):
    /// an authenticated client by the time since its last counted packet, one still
    /// authenticating by the time since it connected. Durations are in nanoseconds, limits in
    /// seconds.
    pub fn is_inactive(
        &self,
        since_activity_nanos: u128,
        since_connect_nanos: u128,
        communication_time_secs: u64,
        max_auth_time_secs: u64,
    ) -> (r: bool)
        ensures
            r == if self.is_authenticated() {
                since_activity_nanos > communication_time_secs as nat * 1_000_000_000
            } else {
                since_connect_nanos > max_auth_time_secs as nat * 1_000_000_000
            },
    {
        crate::chat::server::is_inactive(
            self.is_authenticated(),
            since_activity_nanos,
            since_connect_nanos,
            communication_time_secs,
            max_auth_time_secs,
        )
    }

    /// Records whether an authenticated client answered the last keepalive.
    pub fn set_alive(&mut self, val: bool)
        ensures
            *final(self) == old(self).with_alive(val),
    {
        match self {
            Connection::Authenticated { alive, .. } => {
                *alive = val;
            },
            Connection::NonAuthenticated { .. } => {},
        }
    }

    /// Whether the client answered the last keepalive; one still authenticating never counts as
    /// alive.
    pub fn is_alive(&self) -> (r: bool)
        ensures
            r == match *self {
                Connection::Authenticated { alive, .. } => alive,
                Connection::NonAuthenticated { .. } => false,
            },
    {
        match self {
            Connection::Authenticated { alive, .. } => *alive,
            Connection::NonAuthenticated { .. } => false,
        }
    }

    /// The file transfers running for an authenticated client, by transfer id; none for a client
    /// still authenticating.
    pub open spec fn transfers(&self) -> Map<u64, H> {
        match *self {
            Connection::Authenticated { file_streams, .. } => file_streams@,
            Connection::NonAuthenticated { .. } => Map::empty(),
        }
    }

    /// Registers a running file transfer of an authenticated client; the task it replaces, if
    /// any, is handed back. A client still authenticating runs no transfers, and gets the task
    /// back.
    pub fn add_file_stream(&mut self, uid: u64, task: H) -> (r: Option<H>)
        ensures
            old(self).is_authenticated() ==> final(self).transfers() == old(self).transfers().insert(uid, task)
                && r == (if old(self).transfers().contains_key(uid) {
                Some(old(self).transfers()[uid])
            } else {
                None
            }),
            !old(self).is_authenticated() ==> r == Some(task),
            *final(self) == old(self).with_streams(final(self).streams_of()),
    {
        match self {
            Connection::Authenticated { file_streams, .. } => file_streams.insert(uid, task),
            Connection::NonAuthenticated { .. } => Some(task),
        }
    }

    /// Ends the bookkeeping of a file transfer: the transfer's task is handed back (for the
    /// caller to stop), and forgotten.
    pub fn remove_file_stream(&mut self, uid: u64) -> (r: Option<H>)
        ensures
            final(self).transfers() == old(self).transfers().remove(uid),
            r == (if old(self).transfers().contains_key(uid) {
                Some(old(self).transfers()[uid])
            } else {
                None
            }),
            *final(self) == old(self).with_streams(final(self).streams_of()),
    {
        match self {
            Connection::Authenticated { file_streams, .. } => file_streams.remove(&uid),
            Connection::NonAuthenticated { .. } => {
                assert(Map::<u64, H>::empty().remove(uid) =~= Map::<u64, H>::empty());
                None
            },
        }
    }

    /// Takes every running file transfer out of the connection (when it closes), by transfer
    /// id, for the caller to stop; none remain.
    pub fn take_file_streams(&mut self) -> (r: HashMap<u64, H>)
        ensures
            r@ == old(self).transfers(),
            final(self).transfers() == Map::<u64, H>::empty(),
            *final(self) == old(self).with_streams(final(self).streams_of()),
    {
        match self {
            Connection::Authenticated { file_streams, .. } => {
                let mut taken: HashMap<u64, H> = HashMap::new();
                std::mem::swap(file_streams, &mut taken);
                taken
            },
            Connection::NonAuthenticated { .. } => HashMap::new(),
        }
    }

    /// The task receiving the client's screen share, if it shares.
    pub fn screen_stream(&self) -> (r: Option<&H>)
        ensures
            match *self {
                Connection::Authenticated { screen_stream, .. } => match screen_stream {
                    Some(h) => r == Some(&h),
                    None => r is None,
                },
                Connection::NonAuthenticated { .. } => r is None,
            },
    {
        match self {
            Connection::Authenticated { screen_stream, .. } => match screen_stream {
                Some(h) => Some(h),
                None => None,
            },
            Connection::NonAuthenticated { .. } => None,
        }
    }

    /// The share the client watches, if any.
    pub fn attached_screen(&self) -> (r: Option<&Attach<S>>)
        ensures
            match *self {
                Connection::Authenticated { attached_screen, .. } => match attached_screen {
                    Some(a) => r == Some(&a),
                    None => r is None,
                },
                Connection::NonAuthenticated { .. } => r is None,
            },
    {
        match self {
            Connection::Authenticated { attached_screen, .. } => match attached_screen {
                Some(a) => Some(a),
                None => None,
            },
            Connection::NonAuthenticated { .. } => None,
        }
    }

    /// The chat id of the sharer the client watches, if any.
    pub open spec fn watching(&self) -> Option<usize> {
        match *self {
            Connection::Authenticated { attached_screen, .. } => match attached_screen {
                Some(a) => Some(a.target_id),
                None => None,
            },
            Connection::NonAuthenticated { .. } => None,
        }
    }

    /// Makes an authenticated client watch the share of `target_id` over `stream`.
    pub fn attach_screen(&mut self, target_id: usize, stream: S, token: [u8; 32])
        ensures
            *final(self) == old(self).with_attached(Some(Attach { stream, target_id, token })),
    {
        match self {
            Connection::Authenticated { attached_screen, .. } => {
                *attached_screen = Some(Attach { stream, target_id, token });
            },
            Connection::NonAuthenticated { .. } => {},
        }
    }

    /// Stops the client watching a share.
    pub fn deattach_screen(&mut self)
        ensures
            *final(self) == old(self).with_attached(None),
    {
        match self {
            Connection::Authenticated { attached_screen, .. } => {
                *attached_screen = None;
            },
            Connection::NonAuthenticated { .. } => {},
        }
    }

    /// Whether the client shares its screen.
    pub open spec fn sharing(&self) -> bool {
        match *self {
            Connection::Authenticated { screen_stream, .. } => screen_stream is Some,
            Connection::NonAuthenticated { .. } => false,
        }
    }

    /// Takes the task of the client's screen share, with the client's chat id, if it shares: the
    /// share is then over. The task is not stopped (the share task itself calls this when it
    /// ends).
    pub fn take_screen_stream(&mut self) -> (r: Option<(usize, H)>)
        ensures
            r is Some <==> old(self).sharing(),
            r matches Some((i, t)) ==> old(self).id_of() == Some(i) && old(self).share_task_of() == Some(t),
            *final(self) == old(self).with_share_task(None),
    {
        match self {
            Connection::Authenticated { screen_stream, id, .. } => match screen_stream.take() {
                Some(task) => Some((*id, task)),
                None => None,
            },
            Connection::NonAuthenticated { .. } => None,
        }
    }

    /// Registers the task receiving the client's screen share; the task of a share already
    /// running is handed back to be stopped. A client still authenticating cannot share, and
    /// gets its task back.
    pub fn set_screen_stream(&mut self, task: H) -> (r: Option<H>)
        ensures
            *final(self) == old(self).with_share_task(Some(task)),
            r == if old(self).is_authenticated() {
                old(self).share_task_of()
            } else {
                Some(task)
            },
    {
        match self {
            Connection::Authenticated { screen_stream, .. } => {
                let old_task = screen_stream.take();
                *screen_stream = Some(task);
                old_task
            },
            Connection::NonAuthenticated { .. } => Some(task),
        }
    }

    /// Whether the client is muted; one still authenticating is not.
    pub fn muted(&self) -> (r: bool)
        ensures
            r == match *self {
                Connection::Authenticated { muted, .. } => muted,
                Connection::NonAuthenticated { .. } => false,
            },
    {
        match self {
            Connection::Authenticated { muted, .. } => *muted,
            Connection::NonAuthenticated { .. } => false,
        }
    }

    /// Mutes an unmuted client and unmutes a muted one.
    pub fn toggle_mute(&mut self)
        ensures
            *final(self) == old(self).with_muted(!old(self).muted_of()),
    {
        match self {
            Connection::Authenticated { muted, .. } => {
                *muted = !*muted;
            },
            Connection::NonAuthenticated { .. } => {},
        }
    }

    /// Gives an authenticated client a new role.
    pub fn set_role(&mut self, new_role: Role)
        ensures
            *final(self) == old(self).with_role(new_role),
    {
        match self {
            Connection::Authenticated { role, .. } => {
                *role = new_role;
            },
            Connection::NonAuthenticated { .. } => {},
        }
    }
}

/// A connection after a key exchange with `keys` at `now`: a client still authenticating gets
/// the keys, forgets any username it asked for, and counts as active now; an authenticated one
/// gets the keys, a fresh key-exchange time and a clean spam record. Nothing else changes.
pub fn update_client_keys<S, H, K, T: Copy, A>(conn: Connection<S, H, K, T, A>, keys: K, now: T) -> (r: Connection<S, H, K, T, A>)
    ensures
        r == match conn {
            Connection::NonAuthenticated {
                write_stream,
                task,
                peer_addr,
                obfuscation_key,
                seq,
                connect,
                ..
            } => Connection::<S, H, K, T, A>::NonAuthenticated {
                write_stream,
                task,
                peer_addr,
                username: None,
                keys: Some(keys),
                obfuscation_key,
                last_activity: now,
                seq,
                connect,
            },
            Connection::Authenticated {
                write_stream,
                task,
                file_streams,
                screen_stream,
                peer_addr,
                username,
                role,
                id,
                attached_screen,
                last_activity,
                channel,
                seq,
                server_seq,
                alive,
                muted,
                ..
            } => Connection::<S, H, K, T, A>::Authenticated {
                write_stream,
                task,
                file_streams,
                screen_stream,
                peer_addr,
                username,
                role,
                id,
                keys,
                attached_screen,
                last_activity,
                last_key_exchange: now,
                spam_violations: 0,
                channel,
                seq,
                server_seq,
                alive,
                muted,
            },
        },
{
    match conn {
        Connection::NonAuthenticated { write_stream, task, peer_addr, obfuscation_key, seq, connect, .. } => {
            Connection::NonAuthenticated {
                write_stream,
                task,
                peer_addr,
                username: None,
                keys: Some(keys),
                obfuscation_key,
                last_activity: now,
                seq,
                connect,
            }
        },
        Connection::Authenticated {
            write_stream,
            task,
            file_streams,
            screen_stream,
            peer_addr,
            username,
            role,
            id,
            attached_screen,
            last_activity,
            channel,
            seq,
            server_seq,
            alive,
            muted,
            ..
        } => Connection::Authenticated {
            write_stream,
            task,
            file_streams,
            screen_stream,
            peer_addr,
            username,
            role,
            id,
            keys,
            attached_screen,
            last_activity,
            last_key_exchange: now,
            spam_violations: 0,
            channel,
            seq,
            server_seq,
            alive,
            muted,
        },
    }
}

/// A connection once its client logged in as `username` with chat id `id` and `role`: the
/// socket, task, address, keys and sequence number carry over; nothing is transferred, shared
/// or watched; the client is in no channel, alive and not muted; it counts as last active at
/// `active_since` (the caller passes a time far enough back that its first message is not
/// throttled) and keeps the time of its key exchange (`now` when there was none). The
/// connection must hold keys.
pub fn authenticate_client<S, H, K, T: Copy, A>(
    conn: Connection<S, H, K, T, A>,
    username: String,
    id: usize,
    role: Role,
    active_since: T,
    now: T,
) -> (r: Connection<S, H, K, T, A>)
    requires
        conn matches Connection::NonAuthenticated { keys: Some(_), .. } || conn is Authenticated,
    ensures
        r matches Connection::Authenticated {
            file_streams,
            screen_stream,
            username: u,
            role: ro,
            id: i,
            attached_screen,
            last_activity,
            last_key_exchange,
            spam_violations,
            channel,
            server_seq,
            alive,
            muted,
            ..
        } && file_streams@ == Map::<u64, H>::empty() && screen_stream is None && u == username && ro == role
            && i == id && attached_screen is None && last_activity == active_since && spam_violations == 0
            && channel is None && server_seq == 0 && alive && !muted && last_key_exchange == match conn {
            Connection::Authenticated { last_key_exchange, .. } => last_key_exchange,
            Connection::NonAuthenticated { .. } => now,
        },
        r.stream_of() == conn.stream_of(),
        r.task_of() == conn.task_of(),
        r.addr_of() == conn.addr_of(),
        r.keys_of() == conn.keys_of(),
        r.seq_of() == conn.seq_of(),
{
    let (write_stream, task, peer_addr, keys, seq, last_key_exchange) = match conn {
        Connection::Authenticated { write_stream, task, peer_addr, keys, seq, last_key_exchange, .. } => (
            write_stream,
            task,
            peer_addr,
            keys,
            seq,
            last_key_exchange,
        ),
        Connection::NonAuthenticated { write_stream, task, peer_addr, keys, seq, .. } => (
            write_stream,
            task,
            peer_addr,
            keys.unwrap(),
            seq,
            now,
        ),
    };
    Connection::Authenticated {
        write_stream,
        task,
        file_streams: HashMap::new(),
        screen_stream: None,
        peer_addr,
        username,
        role,
        id,
        keys,
        attached_screen: None,
        last_activity: active_since,
        last_key_exchange,
        spam_violations: 0,
        channel: None,
        seq,
        server_seq: 0,
        alive: true,
        muted: false,
    }
}

/// Moves an authenticated client to `channel` at `now`: it counts as active and alive, and
/// everything else stays; the channel it left is handed back.
pub fn update_client_channel<S, H, K, T, A>(conn: &mut Connection<S, H, K, T, A>, channel: Option<String>, now: T) -> (r: Option<
    String,
>)
    requires
        old(conn).is_authenticated(),
    ensures
        match *old(conn) {
            Connection::Authenticated {
                write_stream,
                task,
                file_streams,
                screen_stream,
                peer_addr,
                username,
                role,
                id,
                keys,
                attached_screen,
                last_key_exchange,
                spam_violations,
                channel: left,
                seq,
                server_seq,
                muted,
                ..
            } => r == left && *final(conn) == Connection::<S, H, K, T, A>::Authenticated {
                write_stream,
                task,
                file_streams,
                screen_stream,
                peer_addr,
                username,
                role,
                id,
                keys,
                attached_screen,
                last_activity: now,
                last_key_exchange,
                spam_violations,
                channel,
                seq,
                server_seq,
                alive: true,
                muted,
            },
            Connection::NonAuthenticated { .. } => false,
        },
{
    match conn {
        Connection::Authenticated { channel: current, last_activity, alive, .. } => {
            let mut left = channel;
            std::mem::swap(current, &mut left);
            *last_activity = now;
            *alive = true;
            left
        },
        Connection::NonAuthenticated { .. } => None,
    }
}

/// Whether a broadcast reaches `conn`: every authenticated client, or with `filter_channel`
/// only those in `channel`.
pub open spec fn receives<S, H, K, T, A>(conn: Connection<S, H, K, T, A>, filter_channel: bool, channel: Option<Seq<char>>) -> bool {
    match conn {
        Connection::Authenticated { channel: c, .. } => !filter_channel || name_view(c) == channel,
        Connection::NonAuthenticated { .. } => false,
    }
}

/// The positions of the connections a broadcast reaches (see [`receives`]), in order.
pub open spec fn receivers<S, H, K, T, A>(conns: Seq<Connection<S, H, K, T, A>>, filter_channel: bool, channel: Option<Seq<char>>) -> Seq<
    usize,
>
    decreases conns.len(),
{
    if conns.len() == 0 {
        Seq::empty()
    } else {
        let before = receivers(conns.drop_last(), filter_channel, channel);
        if receives(conns.last(), filter_channel, channel) {
            before.push((conns.len() - 1) as usize)
        } else {
            before
        }
    }
}

/// The connections a packet sent to everyone goes to (see [`receives`]).
pub fn broadcast_targets<S, H, K, T, A>(conns: &Vec<Connection<S, H, K, T, A>>, filter_channel: bool, channel: &Option<String>) -> (r: Vec<
    usize,
>)
    ensures
        r@ == receivers(conns@, filter_channel, name_view(*channel)),
{
    let mut out: Vec<usize> = Vec::new();
    let mut i: usize = 0;
    while i < conns.len()
        invariant
            i <= conns@.len(),
            out@ == receivers(conns@.take(i as int), filter_channel, name_view(*channel)),
        decreases conns@.len() - i,
    {
        proof {
            assert(conns@.take(i as int + 1).drop_last() =~= conns@.take(i as int));
        }
        let reached = match &conns[i] {
            Connection::Authenticated { channel: c, .. } => !filter_channel || match (c, channel) {
                (Some(a), Some(b)) => *a == *b,
                (None, None) => true,
                _ => false,
            },
            Connection::NonAuthenticated { .. } => false,
        };
        if reached {
            out.push(i);
        }
        i = i + 1;
    }
    proof {
        assert(conns@.take(conns@.len() as int) =~= conns@);
    }
    out
}

} // verus!
