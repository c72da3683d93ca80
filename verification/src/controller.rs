//! The session multiplexer: it tracks which socket roles currently have a
//! live session and decides, for every inbound command, which sockets to
//! accept and which sessions to cancel. The surrounding loop owns the TCP
//! listener and the cancellation handles; it performs the returned action and
//! feeds the next command back in.
use vstd::prelude::*;

use crate::registry::ControlledDevice;

verus! {

/// One socket role of a device session: the main device's control, video and
/// audio sockets, or an auxiliary device's control socket keyed by its
/// session id.
#[derive(Clone, Debug)]
pub enum SocketId {
    MainControl,
    MainVideo,
    MainAudio,
    SubControl(String),
}

impl SocketId {
    /// Whether two socket ids name the same socket role.
    pub open spec fn spec_eq(self, other: SocketId) -> bool {
        match (self, other) {
            (SocketId::MainControl, SocketId::MainControl) => true,
            (SocketId::MainVideo, SocketId::MainVideo) => true,
            (SocketId::MainAudio, SocketId::MainAudio) => true,
            (SocketId::SubControl(a), SocketId::SubControl(b)) => a@ == b@,
            _ => false,
        }
    }

    /// Exec mirror of [`SocketId::spec_eq`].
    pub fn same(&self, other: &SocketId) -> (r: bool)
        ensures
            r == self.spec_eq(*other),
    {
        match (self, other) {
            (SocketId::MainControl, SocketId::MainControl) => true,
            (SocketId::MainVideo, SocketId::MainVideo) => true,
            (SocketId::MainAudio, SocketId::MainAudio) => true,
            (SocketId::SubControl(a), SocketId::SubControl(b)) => a.eq(b),
            _ => false,
        }
    }
}

/// Whether the list of live sessions holds this socket role.
pub open spec fn spec_sessions_contain(s: Seq<SocketId>, id: SocketId) -> bool {
    exists|i: int| 0 <= i < s.len() && (#[trigger] s[i]).spec_eq(id)
}

/// Whether a socket role belongs to the main device: its control, video and
/// audio sockets, as opposed to an auxiliary device's control socket.
pub open spec fn spec_is_main_session(s: SocketId) -> bool {
    !(s is SubControl)
}

/// A connect or disconnect intent, keyed by device session id.
#[derive(Clone, Debug)]
pub enum ControllerCommand {
    ConnectMainControl(String),
    ConnectMainVideo(String),
    ConnectMainAudio(String),
    ConnectSubControl(String),
    ShutdownMain(String),
    ShutdownSub(String),
}

/// What the surrounding loop must do next.
#[derive(Clone, Debug)]
pub enum ControllerAction {
    /// Accept exactly one pending socket and spawn the session it belongs to.
    Accept { socket_id: SocketId, scid: String, main: bool },
    /// Cancel the listed sessions.
    CancelSessions { socket_ids: Vec<SocketId> },
    /// The shutdown named a session that is not present: a no-op, reported
    /// as "not found" rather than failing.
    NotFound,
}

/// The multiplexer's own state: which socket roles have a live session.
pub struct Controller {
    pub sessions: Vec<SocketId>,
}

/// The session list after registering a role: unchanged when the role is
/// already present, else extended by it.
pub open spec fn spec_register(s: Seq<SocketId>, id: SocketId) -> Seq<SocketId> {
    if spec_sessions_contain(s, id) {
        s
    } else {
        s.push(id)
    }
}

impl Controller {
    /// A multiplexer with no live sessions.
    pub fn new() -> (r: Controller)
        ensures
            r.sessions@.len() == 0,
    {
        Controller { sessions: Vec::new() }
    }

    /// Whether this socket role has a live session.
    pub fn contains_session(&self, id: &SocketId) -> (r: bool)
        ensures
            r == spec_sessions_contain(self.sessions@, *id),
    {
        let n: usize = self.sessions.len();
        let mut i: usize = 0;
        while i < n
            invariant
                i <= n == self.sessions@.len(),
                forall|k: int| 0 <= k < i ==> !(#[trigger] self.sessions@[k]).spec_eq(*id),
            decreases n - i,
        {
            if self.sessions[i].same(id) {
                return true;
            }
            i = i + 1;
        }
        false
    }

    /// Registers a live session for the role, once.
    fn register_session(&mut self, id: SocketId)
        ensures
            final(self).sessions@ == spec_register(old(self).sessions@, id),
    {
        if !self.contains_session(&id) {
            self.sessions.push(id);
        }
    }

    /// Drops every live session whose role equals `id`.
    fn remove_session(&mut self, id: &SocketId)
        ensures
            final(self).sessions@ == old(self).sessions@.filter(
                |s: SocketId| !s.spec_eq(*id),
            ),
    {
        let ghost pred = |s: SocketId| !s.spec_eq(*id);
        let ghost orig = self.sessions@;
        let n: usize = self.sessions.len();
        let mut kept: Vec<SocketId> = Vec::new();
        let mut i: usize = 0;
        while i < n
            invariant
                i <= n == orig.len(),
                self.sessions@ == orig.skip(i as int),
                kept@ == orig.take(i as int).filter(pred),
                pred == (|s: SocketId| !s.spec_eq(*id)),
            decreases n - i,
        {
            let s = self.sessions.remove(0);
            proof {
                assert(s == orig[i as int]);
                assert(orig.skip(i as int).remove(0) =~= orig.skip(i as int + 1));
                reveal_with_fuel(Seq::<SocketId>::filter, 3);
                let single = seq![orig[i as int]];
                assert(orig.take(i as int + 1) =~= orig.take(i as int) + single);
                Seq::<SocketId>::filter_distributes_over_add(orig.take(i as int), single, pred);
                assert(single.drop_last() =~= Seq::<SocketId>::empty());
                assert(single.last() == orig[i as int]);
                if pred(orig[i as int]) {
                    assert(single.filter(pred) =~= Seq::<SocketId>::empty().push(orig[i as int]));
                } else {
                    assert(single.filter(pred) =~= Seq::<SocketId>::empty());
                }
            }
            if !s.same(id) {
                kept.push(s);
                assert(kept@ =~= orig.take(i as int + 1).filter(pred));
            } else {
                assert(kept@ =~= orig.take(i as int + 1).filter(pred));
            }
            i = i + 1;
        }
        proof {
            assert(orig.take(n as int) =~= orig);
        }
        self.sessions = kept;
    }

    /// Splits the live sessions: the main device's sessions leave and are
    /// returned for cancellation, the auxiliary control sessions stay.
    fn remove_main_sessions(&mut self) -> (cancelled: Vec<SocketId>)
        ensures
            final(self).sessions@ == old(self).sessions@.filter(
                |s: SocketId| !spec_is_main_session(s),
            ),
            cancelled@ == old(self).sessions@.filter(|s: SocketId| spec_is_main_session(s)),
    {
        let ghost keep = |s: SocketId| !spec_is_main_session(s);
        let ghost out = |s: SocketId| spec_is_main_session(s);
        let ghost orig = self.sessions@;
        let n: usize = self.sessions.len();
        let mut kept: Vec<SocketId> = Vec::new();
        let mut cancelled: Vec<SocketId> = Vec::new();
        let mut i: usize = 0;
        while i < n
            invariant
                i <= n == orig.len(),
                self.sessions@ == orig.skip(i as int),
                kept@ == orig.take(i as int).filter(keep),
                cancelled@ == orig.take(i as int).filter(out),
                keep == (|s: SocketId| !spec_is_main_session(s)),
                out == (|s: SocketId| spec_is_main_session(s)),
            decreases n - i,
        {
            let s = self.sessions.remove(0);
            proof {
                assert(s == orig[i as int]);
                assert(orig.skip(i as int).remove(0) =~= orig.skip(i as int + 1));
                crate::lemma_take_filter_step(orig, keep, i as int);
                crate::lemma_take_filter_step(orig, out, i as int);
            }
            match s {
                SocketId::SubControl(_) => kept.push(s),
                _ => cancelled.push(s),
            }
            i = i + 1;
        }
        proof {
            assert(orig.take(n as int) =~= orig);
        }
        self.sessions = kept;
        cancelled
    }

    /// Handles one command.
    ///
    /// A connect command registers the session and asks the loop to accept
    /// one pending socket for it; the device must already stand in the
    /// directory, which the caller checks. A shutdown command cancels the
    /// sessions associated with the device and removes it from the
    /// directory: for the main device its control, video and audio sessions
    /// together — auxiliary devices' control sessions survive —, for an
    /// auxiliary device only its own control session. Shutting down a
    /// session that is not present is a no-op that reports `NotFound`,
    /// changing nothing — never a failure.
    pub fn handle_command(
        &mut self,
        cmd: ControllerCommand,
        registry: &mut ControlledDevice,
    ) -> (act: ControllerAction)
        requires
            cmd matches ControllerCommand::ConnectMainControl(scid) ==> old(
                self,
            ).wf_connect(*old(registry), scid@),
            cmd matches ControllerCommand::ConnectMainVideo(scid) ==> old(
                self,
            ).wf_connect(*old(registry), scid@),
            cmd matches ControllerCommand::ConnectMainAudio(scid) ==> old(
                self,
            ).wf_connect(*old(registry), scid@),
            cmd matches ControllerCommand::ConnectSubControl(scid) ==> old(
                self,
            ).wf_connect(*old(registry), scid@),
        ensures
            !(cmd is ShutdownMain) && !(cmd is ShutdownSub) ==> (*final(registry)).devices@ == old(
                registry,
            ).devices@,
            cmd matches ControllerCommand::ConnectMainControl(scid) ==> (final(self).sessions@
                == spec_register(old(self).sessions@, SocketId::MainControl) && (
            act matches ControllerAction::Accept { socket_id, scid: s, main }
                && socket_id is MainControl && s == scid && main)),
            cmd matches ControllerCommand::ConnectMainVideo(scid) ==> (final(self).sessions@
                == spec_register(old(self).sessions@, SocketId::MainVideo) && (
            act matches ControllerAction::Accept { socket_id, scid: s, main }
                && socket_id is MainVideo && s == scid && main)),
            cmd matches ControllerCommand::ConnectMainAudio(scid) ==> (final(self).sessions@
                == spec_register(old(self).sessions@, SocketId::MainAudio) && (
            act matches ControllerAction::Accept { socket_id, scid: s, main }
                && socket_id is MainAudio && s == scid && main)),
            cmd matches ControllerCommand::ConnectSubControl(scid) ==> (final(self).sessions@
                == spec_register(old(self).sessions@, SocketId::SubControl(scid)) && (
            act matches ControllerAction::Accept { socket_id, scid: s, main } && (
            socket_id matches SocketId::SubControl(sub) && sub@ == scid@) && s == scid && !main)),
            cmd matches ControllerCommand::ShutdownMain(scid) ==> (if !spec_sessions_contain(
                old(self).sessions@,
                SocketId::MainControl,
            ) {
                act is NotFound && final(self).sessions@ == old(self).sessions@ && (*final(registry)).devices@ == old(registry).devices@
            } else {
                final(self).sessions@ == old(self).sessions@.filter(
                    |s: SocketId| !spec_is_main_session(s),
                ) && (act matches ControllerAction::CancelSessions { socket_ids } && socket_ids@
                    == old(self).sessions@.filter(|s: SocketId| spec_is_main_session(s))) && (*final(registry)).devices@ == old(registry).devices@.filter(
                    |d: crate::registry::ScrcpyDevice| d.scid@ != scid@,
                )
            }),
            cmd matches ControllerCommand::ShutdownSub(scid) ==> (if !spec_sessions_contain(
                old(self).sessions@,
                SocketId::SubControl(scid),
            ) {
                act is NotFound && final(self).sessions@ == old(self).sessions@ && (*final(registry)).devices@ == old(registry).devices@
            } else {
                final(self).sessions@ == old(self).sessions@.filter(
                    |s: SocketId| !s.spec_eq(SocketId::SubControl(scid)),
                ) && (act matches ControllerAction::CancelSessions { socket_ids }
                    && socket_ids@.len() == 1 && socket_ids@[0].spec_eq(SocketId::SubControl(scid)))
                    && (*final(registry)).devices@ == old(registry).devices@.filter(
                    |d: crate::registry::ScrcpyDevice| d.scid@ != scid@,
                )
            }),
    {
        match cmd {
            ControllerCommand::ConnectMainControl(scid) => {
                self.register_session(SocketId::MainControl);
                ControllerAction::Accept { socket_id: SocketId::MainControl, scid, main: true }
            },
            ControllerCommand::ConnectMainVideo(scid) => {
                self.register_session(SocketId::MainVideo);
                ControllerAction::Accept { socket_id: SocketId::MainVideo, scid, main: true }
            },
            ControllerCommand::ConnectMainAudio(scid) => {
                self.register_session(SocketId::MainAudio);
                ControllerAction::Accept { socket_id: SocketId::MainAudio, scid, main: true }
            },
            ControllerCommand::ConnectSubControl(scid) => {
                self.register_session(SocketId::SubControl(scid.clone()));
                ControllerAction::Accept {
                    socket_id: SocketId::SubControl(scid.clone()),
                    scid,
                    main: false,
                }
            },
            ControllerCommand::ShutdownMain(scid) => {
                if !self.contains_session(&SocketId::MainControl) {
                    ControllerAction::NotFound
                } else {
                    let cancelled = self.remove_main_sessions();
                    registry.remove_device(&scid);
                    ControllerAction::CancelSessions { socket_ids: cancelled }
                }
            },
            ControllerCommand::ShutdownSub(scid) => {
                let key = SocketId::SubControl(scid.clone());
                if !self.contains_session(&key) {
                    ControllerAction::NotFound
                } else {
                    self.remove_session(&key);
                    registry.remove_device(&scid);
                    let mut cancelled: Vec<SocketId> = Vec::new();
                    cancelled.push(key);
                    ControllerAction::CancelSessions { socket_ids: cancelled }
                }
            },
        }
    }

    /// What a connect command expects of the world: the device is recorded in
    /// the directory. The loop checks this before handing the command in and
    /// treats a violation as the programming defect it is.
    pub open spec fn wf_connect(self, registry: ControlledDevice, scid: Seq<char>) -> bool {
        registry.spec_is_scid_controlled(scid)
    }

    /// Rolls back after a failed accept: the session leaves the multiplexer
    /// and the device leaves the directory — reattachment is driven from
    /// outside, never retried here.
    pub fn accept_failed(&mut self, socket_id: &SocketId, scid: &String, registry: &mut
        ControlledDevice)
        ensures
            final(self).sessions@ == old(self).sessions@.filter(
                |s: SocketId| !s.spec_eq(*socket_id),
            ),
            (*final(registry)).devices@ == old(registry).devices@.filter(
                |d: crate::registry::ScrcpyDevice| d.scid@ != scid@,
            ),
    {
        self.remove_session(socket_id);
        registry.remove_device(scid);
    }
}

} // verus!
