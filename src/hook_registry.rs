//! Install/uninstall bookkeeping shared by every low-level hook type.
//!
//! The registry records which native hook is installed, which thread pumps
//! its messages, and the context the hook's callback works with (the event
//! sink, or the target window). Each transition is a method that takes the
//! current state and an event (a call, or what the hook thread reported)
//! and returns the action the caller carries out against the OS. Callers
//! mirror `context()` into the callback's fast-path slot after every
//! transition.
use vstd::prelude::*;

verus! {

/// Start of the error text when the hook thread vanished before reporting;
/// the channel's own error text follows it.
pub const CHANNEL_ERROR_PREFIX: &'static str = "Hook thread communication error: ";

/// Error text when the hook thread did not report within the allowed wait.
pub const HANDSHAKE_TIMEOUT_ERROR: &'static str = "Hook thread did not report in time";

/// Error text when the hook thread reported a null hook handle or thread id.
pub const NULL_HANDLE_ERROR: &'static str = "SetWindowsHookExW returned a null hook";

/// Mathematical view of a registry whose context has type `C`.
pub ghost struct RegistryModel<C> {
    pub handle: int,
    pub thread_id: int,
    pub context: Option<C>,
}

/// What the hook thread reported through the install handshake.
pub enum Handshake {
    /// The hook is registered: its handle and the pumping thread's id.
    Installed { handle: isize, thread_id: u32 },
    /// The OS refused the hook; the text says why.
    Refused(String),
    /// The thread ended before it reported; the text is the channel's error.
    Disconnected(String),
    /// No report arrived within the allowed wait.
    TimedOut,
}

/// What `begin_install` asks the caller to do next.
pub enum InstallStep {
    /// A hook is already in place: report success, change nothing.
    AlreadyInstalled,
    /// The context could not be resolved: report this error, spawn nothing.
    Abort(String),
    /// The context is now stored: publish it to the callback, spawn the
    /// hook thread and hand its report to `finish_install`.
    Spawn,
}

/// What `begin_uninstall` asks the caller to release.
pub struct Teardown {
    /// The native hook to release, if one was installed.
    pub unhook: Option<isize>,
    /// The thread to send the quit message to, if one was pumping.
    pub post_quit_to: Option<u32>,
}

/// Per-hook-type state. Callers hold it behind the hook type's install lock.
pub struct HookRegistry<C> {
    handle: isize,
    thread_id: u32,
    context: Option<C>,
}

/// A state is coherent: a handle is recorded exactly when a pumping thread
/// is, and an installed hook always has its context in place.
pub open spec fn model_wf<C>(m: RegistryModel<C>) -> bool {
    &&& (m.handle == 0) == (m.thread_id == 0)
    &&& m.handle != 0 ==> m.context is Some
}

pub open spec fn empty_model<C>() -> RegistryModel<C> {
    RegistryModel { handle: 0, thread_id: 0, context: None }
}

pub open spec fn is_installed<C>(m: RegistryModel<C>) -> bool {
    m.handle != 0
}

/// Whether `begin_install` spawns a thread from state `m`.
pub open spec fn install_spawns<C>(m: RegistryModel<C>, context: Result<C, String>) -> bool {
    !is_installed(m) && context is Ok
}

/// State after `begin_install` from `m`: a spawning install stores its context.
pub open spec fn begin_install_model<C>(m: RegistryModel<C>, context: Result<C, String>) -> RegistryModel<C> {
    if install_spawns(m, context) {
        RegistryModel { context: Some(context->Ok_0), ..m }
    } else {
        m
    }
}

/// Whether a handshake report describes a usable hook.
pub open spec fn handshake_ok(h: Handshake) -> bool {
    match h {
        Handshake::Installed { handle, thread_id } => handle != 0 && thread_id != 0,
        _ => false,
    }
}

/// State after `finish_install` received report `h` in state `m`: the hook
/// is recorded beside the stored context, or the context is rolled back.
pub open spec fn finish_install_model<C>(m: RegistryModel<C>, h: Handshake) -> RegistryModel<C> {
    if handshake_ok(h) {
        RegistryModel { handle: h->handle as int, thread_id: h->thread_id as int, context: m.context }
    } else {
        RegistryModel { context: None, ..m }
    }
}

/// Error text that `finish_install` reports for a failed handshake.
pub open spec fn handshake_error(h: Handshake) -> Seq<char> {
    match h {
        Handshake::Installed { .. } => NULL_HANDLE_ERROR@,
        Handshake::Refused(reason) => reason@,
        Handshake::Disconnected(detail) => CHANNEL_ERROR_PREFIX@ + detail@,
        Handshake::TimedOut => HANDSHAKE_TIMEOUT_ERROR@,
    }
}

/// State after `begin_uninstall`: everything cleared, context included.
pub open spec fn uninstall_model<C>(m: RegistryModel<C>) -> RegistryModel<C> {
    empty_model()
}

/// What `begin_uninstall` releases from state `m`.
pub open spec fn teardown_of<C>(m: RegistryModel<C>) -> (Option<int>, Option<int>) {
    if m.handle != 0 {
        (Some(m.handle), if m.thread_id != 0 { Some(m.thread_id) } else { None })
    } else {
        (None, None)
    }
}

/// Outcome of one whole `install` call (both halves under one lock hold)
/// from state `m`: the new state, whether a hook thread was spawned, and
/// whether the call reported success. `report` is what the spawned thread
/// would report.
pub open spec fn install_model<C>(m: RegistryModel<C>, context: Result<C, String>, report: Handshake) -> (RegistryModel<C>, bool, bool) {
    if is_installed(m) {
        (m, false, true)
    } else if context is Err {
        (m, false, false)
    } else {
        (finish_install_model(begin_install_model(m, context), report), true, handshake_ok(report))
    }
}

/// `install` calls serialized by the install lock, one per report in
/// `reports`, each with the resolvable context `c`: the final state, the
/// number of threads spawned and the number of calls that reported success.
pub open spec fn run_installs<C>(m: RegistryModel<C>, c: C, reports: Seq<Handshake>) -> (RegistryModel<C>, nat, nat)
    decreases reports.len(),
{
    if reports.len() == 0 {
        (m, 0, 0)
    } else {
        let (m1, spawned, ok) = install_model(m, Ok(c), reports[0]);
        let (m2, spawns, oks) = run_installs(m1, c, reports.drop_first());
        (m2, spawns + if spawned { 1nat } else { 0nat }, oks + if ok { 1nat } else { 0nat })
    }
}

/// Installing twice in a row succeeds both times with a single hook thread:
/// the second call finds the hook in place, spawns nothing and changes
/// nothing. Uninstalling when nothing is installed releases nothing and
/// leaves the registry empty.
pub proof fn lemma_install_idempotent<C>(
    m: RegistryModel<C>,
    c1: Result<C, String>,
    r1: Handshake,
    c2: Result<C, String>,
    r2: Handshake,
)
    requires
        model_wf(m),
        install_model(m, c1, r1).2,
    ensures
        install_model(install_model(m, c1, r1).0, c2, r2).2,
        !install_model(install_model(m, c1, r1).0, c2, r2).1,
        install_model(install_model(m, c1, r1).0, c2, r2).0 == install_model(m, c1, r1).0,
        is_installed(install_model(m, c1, r1).0),
        !is_installed(m) ==> install_model(m, c1, r1).1,
        teardown_of(empty_model::<C>()) == (None::<int>, None::<int>),
        uninstall_model(empty_model::<C>()) == empty_model::<C>(),
{
}

/// Install, uninstall, install again: both installs succeed, the teardown
/// releases exactly the hook and thread the first install recorded and
/// clears its context, and the second install spawns a fresh thread and
/// records its hook beside the new context.
pub proof fn lemma_reinstall_round_trip<C>(m: RegistryModel<C>, c1: C, r1: Handshake, c2: C, r2: Handshake)
    requires
        model_wf(m),
        !is_installed(m),
        handshake_ok(r1),
        handshake_ok(r2),
    ensures
        ({
            let first = install_model(m, Ok(c1), r1).0;
            let second = install_model(uninstall_model(first), Ok(c2), r2);
            &&& install_model(m, Ok(c1), r1).2
            &&& first.context == Some(c1)
            &&& teardown_of(first) == (Some(first.handle), Some(first.thread_id))
            &&& uninstall_model(first) == empty_model::<C>()
            &&& second.1 && second.2
            &&& model_wf(second.0)
            &&& second.0.handle == r2->handle as int
            &&& second.0.thread_id == r2->thread_id as int
            &&& second.0.context == Some(c2)
        }),
{
}

/// Any number of serialized `install` calls after another already
/// succeeded: none spawns a thread, all succeed, and the state stays put.
pub proof fn lemma_installed_runs_stay<C>(m: RegistryModel<C>, c: C, reports: Seq<Handshake>)
    requires
        model_wf(m),
        is_installed(m),
    ensures
        run_installs(m, c, reports) == (m, 0nat, reports.len()),
    decreases reports.len(),
{
    if reports.len() > 0 {
        lemma_installed_runs_stay(m, c, reports.drop_first());
    }
}

/// `n` install calls racing for one hook type, serialized by its lock,
/// where the first to run gets a successful report: exactly one hook
/// thread is spawned and all `n` calls succeed.
pub proof fn lemma_concurrent_installs<C>(m: RegistryModel<C>, c: C, reports: Seq<Handshake>)
    requires
        model_wf(m),
        !is_installed(m),
        reports.len() >= 1,
        handshake_ok(reports[0]),
    ensures
        run_installs(m, c, reports).1 == 1,
        run_installs(m, c, reports).2 == reports.len(),
        is_installed(run_installs(m, c, reports).0),
        run_installs(m, c, reports).0.context == Some(c),
{
    let m1 = install_model(m, Ok(c), reports[0]).0;
    lemma_installed_runs_stay(m1, c, reports.drop_first());
}

impl<C> View for HookRegistry<C> {
    type V = RegistryModel<C>;

    closed spec fn view(&self) -> RegistryModel<C> {
        RegistryModel { handle: self.handle as int, thread_id: self.thread_id as int, context: self.context }
    }
}

impl Teardown {
    pub open spec fn view_pair(&self) -> (Option<int>, Option<int>) {
        (
            match self.unhook { Some(h) => Some(h as int), None => None },
            match self.post_quit_to { Some(t) => Some(t as int), None => None },
        )
    }
}

impl<C> HookRegistry<C> {
    pub open spec fn wf(&self) -> bool {
        model_wf(self@)
    }

    /// A registry with nothing installed.
    pub fn new() -> (r: HookRegistry<C>)
        ensures
            r@ == empty_model::<C>(),
            r.wf(),
    {
        HookRegistry { handle: 0, thread_id: 0, context: None }
    }

    /// Whether a hook is currently installed.
    pub fn is_installed(&self) -> (r: bool)
        ensures
            r == is_installed(self@),
    {
        self.handle != 0
    }

    /// The installed hook's handle, or 0.
    pub fn handle(&self) -> (r: isize)
        ensures
            r as int == self@.handle,
    {
        self.handle
    }

    /// The pumping thread's id, or 0.
    pub fn thread_id(&self) -> (r: u32)
        ensures
            r as int == self@.thread_id,
    {
        self.thread_id
    }

    /// The context the callback should see now.
    pub fn context(&self) -> (r: &Option<C>)
        ensures
            *r == self@.context,
    {
        &self.context
    }

    /// First half of `install`, under the install lock. `context` is the
    /// hook's context, or the error met while resolving it. An installed
    /// hook makes this a no-op success; otherwise a context error aborts
    /// before any thread exists, and else the context is stored and the
    /// caller spawns.
    pub fn begin_install(&mut self, context: Result<C, String>) -> (r: InstallStep)
        requires
            old(self).wf(),
        ensures
            final(self).wf(),
            final(self)@ == begin_install_model(old(self)@, context),
            is_installed(old(self)@) <==> r is AlreadyInstalled,
            install_spawns(old(self)@, context) <==> r is Spawn,
            r is Abort ==> context == Err::<C, String>(r->Abort_0),
    {
        if self.handle != 0 {
            return InstallStep::AlreadyInstalled;
        }
        match context {
            Err(e) => InstallStep::Abort(e),
            Ok(c) => {
                self.context = Some(c);
                InstallStep::Spawn
            },
        }
    }

    /// Second half of `install`, after `begin_install` asked for a spawn:
    /// records the hook thread's report.
    /// On success the handle and thread id are stored beside the context;
    /// on any failure the context is cleared and the error text returned.
    pub fn finish_install(&mut self, report: Handshake) -> (r: Result<(), String>)
        requires
            old(self).wf(),
            !is_installed(old(self)@),
            old(self)@.context is Some,
        ensures
            final(self).wf(),
            final(self)@ == finish_install_model(old(self)@, report),
            r is Ok <==> handshake_ok(report),
            r is Err ==> r->Err_0@ == handshake_error(report),
    {
        match report {
            Handshake::Installed { handle, thread_id } => {
                if handle != 0 && thread_id != 0 {
                    self.handle = handle;
                    self.thread_id = thread_id;
                    Ok(())
                } else {
                    self.context = None;
                    Err(NULL_HANDLE_ERROR.to_owned())
                }
            },
            Handshake::Refused(reason) => {
                self.context = None;
                Err(reason)
            },
            Handshake::Disconnected(detail) => {
                self.context = None;
                Err(CHANNEL_ERROR_PREFIX.to_owned().concat(detail.as_str()))
            },
            Handshake::TimedOut => {
                self.context = None;
                Err(HANDSHAKE_TIMEOUT_ERROR.to_owned())
            },
        }
    }

    /// `uninstall`, under the install lock: takes the handle and thread id
    /// out of the registry in one step and clears the context. The caller
    /// unhooks and posts the quit message as the result says; an empty
    /// registry gives an empty teardown.
    pub fn begin_uninstall(&mut self) -> (r: Teardown)
        requires
            old(self).wf(),
        ensures
            final(self).wf(),
            final(self)@ == uninstall_model(old(self)@),
            r.view_pair() == teardown_of(old(self)@),
    {
        let handle = self.handle;
        let thread_id = self.thread_id;
        self.handle = 0;
        self.thread_id = 0;
        self.context = None;
        if handle != 0 {
            Teardown {
                unhook: Some(handle),
                post_quit_to: if thread_id != 0 { Some(thread_id) } else { None },
            }
        } else {
            Teardown { unhook: None, post_quit_to: None }
        }
    }
}

} // verus!
