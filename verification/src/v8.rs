//! Process-wide engine state: platform and engine initialization, the
//! reference-counted initialize-once routine, teardown, and the version
//! query.
//!
//! The engine must be initialized exactly once per process, before any
//! isolate is created, and torn down at most once, after every isolate is
//! gone. Because independent call sites may each assume they are first, the
//! state keeps a user count: the caller that raises it from zero performs the
//! real initialization, later callers only count themselves in. Rather than
//! ambient global state, the whole of it lives in an explicit [`V8`] value
//! that the embedder creates once and passes to every call site (wrapping it
//! in a mutual-exclusion lock when call sites run on several threads).

use vstd::prelude::*;
use vstd::string::StringExecFns;
use crate::platform::Platform;

verus! {

/// The engine flags this layer recognizes and strips from a command line.
pub open spec fn spec_recognized_flag(flag: Seq<char>) -> bool {
    ||| flag == "--log-colour"@
    ||| flag == "--log-all"@
    ||| flag == "--expose-gc"@
    ||| flag == "--use-strict"@
    ||| flag == "--harmony"@
}

/// The arguments the engine hands back to the caller: everything it does not
/// recognize as a flag of its own.
pub open spec fn unrecognized_pred() -> spec_fn(Seq<char>) -> bool {
    |flag: Seq<char>| !spec_recognized_flag(flag)
}

/// The process-wide engine state.
pub struct V8 {
    platform: Option<Platform>,
    initialized: bool,
    init_refs: u64,
    disposed: bool,
    platform_down: bool,
}

/// The engine's version string.
pub open spec fn spec_version() -> Seq<char> {
    "8.1.310"@
}

impl V8 {
    /// Whether the platform has been installed and not yet shut down.
    pub closed spec fn platform_ready(&self) -> bool {
        self.platform is Some
    }

    /// Whether the engine itself has been initialized.
    pub closed spec fn is_initialized(&self) -> bool {
        self.initialized
    }

    /// How many call sites currently count themselves as users of the engine.
    pub closed spec fn refs(&self) -> u64 {
        self.init_refs
    }

    /// Whether the engine has been disposed.
    pub closed spec fn is_disposed(&self) -> bool {
        self.disposed
    }

    /// Whether the platform has been shut down.
    pub closed spec fn platform_shut_down(&self) -> bool {
        self.platform_down
    }

    /// Isolates may be created only on a ready engine: platform installed,
    /// engine initialized, nothing torn down.
    pub open spec fn ready(&self) -> bool {
        &&& self.platform_ready()
        &&& self.is_initialized()
        &&& !self.is_disposed()
    }

    /// The state invariant: an initialized engine has a live platform and has
    /// not been disposed, and every counted user found the engine ready.
    pub open spec fn wf(&self) -> bool {
        &&& self.is_initialized() ==> self.platform_ready() && !self.is_disposed()
        &&& self.refs() > 0 ==> self.is_initialized()
    }

    /// A fresh, entirely uninitialized engine state.
    pub fn new() -> (v: V8)
        ensures
            !v.platform_ready(),
            !v.is_initialized(),
            v.refs() == 0,
            !v.is_disposed(),
            !v.platform_shut_down(),
            v.wf(),
    {
        V8 {
            platform: None,
            initialized: false,
            init_refs: 0,
            disposed: false,
            platform_down: false,
        }
    }

    /// Install the platform. Must run exactly once per process, before
    /// [`V8::initialize`]; the platform cannot be installed again after a
    /// shutdown.
    pub fn initialize_platform(&mut self, platform: Platform)
        requires
            !old(self).platform_ready(),
            !old(self).platform_shut_down(),
        ensures
            final(self).platform_ready(),
            final(self).is_initialized() == old(self).is_initialized(),
            final(self).refs() == old(self).refs(),
            final(self).is_disposed() == old(self).is_disposed(),
            !final(self).platform_shut_down(),
            old(self).wf() ==> final(self).wf(),
    {
        self.platform = Some(platform);
    }

    /// Initialize the engine. Must run exactly once per process, after the
    /// platform is installed; a disposed engine cannot come back.
    pub fn initialize(&mut self)
        requires
            old(self).platform_ready(),
            !old(self).is_initialized(),
            !old(self).is_disposed(),
        ensures
            final(self).is_initialized(),
            final(self).platform_ready(),
            final(self).refs() == old(self).refs(),
            !final(self).is_disposed(),
            final(self).platform_shut_down() == old(self).platform_shut_down(),
            final(self).wf(),
    {
        self.initialized = true;
    }

    /// Whether the initialize-once routine may run: nothing torn down, and
    /// either no user has registered yet and nothing is initialized, or the
    /// engine is already up.
    pub open spec fn can_setup(&self) -> bool {
        &&& self.wf()
        &&& !self.is_disposed()
        &&& !self.platform_shut_down()
        &&& self.refs() == 0 ==> !self.platform_ready() && !self.is_initialized()
    }

    /// The initialize-once routine. Every call site that wants the engine up
    /// calls this; the call that raises the user count from zero installs the
    /// default platform and initializes the engine, every later call only
    /// counts its caller in. Returns whether this call performed the real
    /// initialization; either way the engine is ready afterwards.
    pub fn setup(&mut self) -> (first: bool)
        requires
            old(self).can_setup(),
            old(self).refs() < u64::MAX,
        ensures
            final(self).refs() == old(self).refs() + 1,
            first == (old(self).refs() == 0),
            setup_step(*old(self), *final(self), first),
            final(self).ready(),
            final(self).wf(),
            !final(self).platform_shut_down(),
            !final(self).is_disposed(),
    {
        let first = self.init_refs == 0;
        self.init_refs = self.init_refs + 1;
        if first {
            self.initialize_platform(crate::platform::new_default_platform());
            self.initialize();
        }
        first
    }

    /// The counterpart of [`V8::setup`]: a call site that is done with the
    /// engine counts itself out. Returns whether it was the last user, so
    /// that an embedder that wants eager teardown can then dispose and shut
    /// down; the routine itself defers teardown, and the count can never fall
    /// below zero because only counted users call it.
    pub fn release(&mut self) -> (last: bool)
        requires
            old(self).refs() > 0,
        ensures
            final(self).refs() == old(self).refs() - 1,
            last == (old(self).refs() == 1),
            final(self).platform_ready() == old(self).platform_ready(),
            final(self).is_initialized() == old(self).is_initialized(),
            final(self).is_disposed() == old(self).is_disposed(),
            final(self).platform_shut_down() == old(self).platform_shut_down(),
    {
        self.init_refs = self.init_refs - 1;
        self.init_refs == 0
    }

    /// Dispose the engine. Must run at most once, only when no user is
    /// counted in any more (every isolate must already be gone; the borrow
    /// each isolate keeps on this state enforces that statically).
    pub fn dispose(&mut self)
        requires
            old(self).is_initialized(),
            old(self).refs() == 0,
            !old(self).is_disposed(),
        ensures
            !final(self).is_initialized(),
            final(self).is_disposed(),
            final(self).refs() == 0,
            final(self).platform_ready() == old(self).platform_ready(),
            final(self).platform_shut_down() == old(self).platform_shut_down(),
            final(self).wf(),
    {
        self.initialized = false;
        self.disposed = true;
    }

    /// Shut the platform down. Must run at most once, after the engine has
    /// been disposed.
    pub fn shutdown_platform(&mut self)
        requires
            old(self).platform_ready(),
            !old(self).is_initialized(),
            !old(self).platform_shut_down(),
        ensures
            !final(self).platform_ready(),
            final(self).platform_shut_down(),
            final(self).refs() == old(self).refs(),
            final(self).is_initialized() == old(self).is_initialized(),
            final(self).is_disposed() == old(self).is_disposed(),
    {
        self.platform = None;
        self.platform_down = true;
    }

    /// Whether the engine recognizes `flag` as one of its own command-line
    /// flags.
    pub fn is_recognized_flag(flag: &String) -> (r: bool)
        ensures
            r == spec_recognized_flag(flag@),
    {
        ||| *flag == String::from_str("--log-colour")
        ||| *flag == String::from_str("--log-all")
        ||| *flag == String::from_str("--expose-gc")
        ||| *flag == String::from_str("--use-strict")
        ||| *flag == String::from_str("--harmony")
    }

    /// Consume the engine's own flags from a command line.
    ///
    /// Takes the full argument sequence (the first element conventionally the
    /// program name), removes every argument the engine recognizes as one of
    /// its flags, and returns the rest — the program name and the
    /// unrecognized arguments — in their original relative order, each
    /// unchanged in content.
    pub fn set_flags_from_command_line(args: Vec<String>) -> (rest: Vec<String>)
        ensures
            rest.deep_view() == args.deep_view().filter(unrecognized_pred()),
    {
        let ghost dv = args.deep_view();
        let mut rest: Vec<String> = Vec::new();
        let mut i: usize = 0;
        while i < args.len()
            invariant
                i <= args.len(),
                dv == args.deep_view(),
                dv.len() == args.len(),
                rest.deep_view() == dv.take(i as int).filter(unrecognized_pred()),
            decreases args.len() - i,
        {
            let keep = !Self::is_recognized_flag(&args[i]);
            proof {
                reveal(Seq::filter);
                assert(dv.take(i + 1).drop_last() =~= dv.take(i as int));
                assert(dv.take(i + 1).last() == dv[i as int]);
                assert(dv[i as int] == args[i as int]@);
            }
            if keep {
                let ghost before = rest.deep_view();
                rest.push(args[i].clone());
                proof {
                    assert(rest.deep_view() =~= before.push(args[i as int]@));
                    assert(dv.take(i + 1).filter(unrecognized_pred()) == dv.take(
                        i as int,
                    ).filter(unrecognized_pred()).push(dv[i as int]));
                }
            } else {
                proof {
                    assert(dv.take(i + 1).filter(unrecognized_pred()) == dv.take(
                        i as int,
                    ).filter(unrecognized_pred()));
                }
            }
            i = i + 1;
        }
        proof {
            assert(dv.take(dv.len() as int) =~= dv);
        }
        rest
    }

    /// The engine's version.
    pub fn get_version() -> (v: &'static str)
        ensures
            v@ == spec_version(),
            v@.len() > 0,
    {
        proof {
            reveal_strlit("8.1.310");
        }
        "8.1.310"
    }
}

/// Law: a command line in which the engine recognizes none of the arguments
/// comes back from the flag filter unchanged, in content and in order.
pub proof fn lemma_unrecognized_args_unchanged(args: Seq<Seq<char>>)
    requires
        forall|i: int| 0 <= i < args.len() ==> !spec_recognized_flag(#[trigger] args[i]),
    ensures
        args.filter(unrecognized_pred()) == args,
    decreases args.len(),
{
    reveal(Seq::filter);
    if args.len() == 0 {
        assert(args.filter(unrecognized_pred()) =~= args);
    } else {
        let front = args.drop_last();
        assert(forall|i: int| 0 <= i < front.len() ==> !spec_recognized_flag(#[trigger] front[i]))
            by {
            assert(forall|i: int| 0 <= i < front.len() ==> #[trigger] front[i] == args[i]);
        }
        lemma_unrecognized_args_unchanged(front);
        assert(!spec_recognized_flag(args.last()));
        assert(front.push(args.last()) =~= args);
    }
}

/// One call of the initialize-once routine, as its contract gives it: the
/// user count rises by one, and the call reports the real initialization
/// exactly when it found the count at zero.
pub open spec fn setup_step(pre: V8, post: V8, first: bool) -> bool {
    &&& post.refs() == pre.refs() + 1
    &&& first == (pre.refs() == 0)
}

proof fn lemma_refs_after_setups(states: Seq<V8>, firsts: Seq<bool>, k: int)
    requires
        states.len() == firsts.len() + 1,
        states[0].refs() == 0,
        forall|i: int|
            #![trigger firsts[i]]
            0 <= i < firsts.len() ==> setup_step(states[i], states[i + 1], firsts[i]),
        0 <= k < states.len(),
    ensures
        states[k].refs() == k,
    decreases k,
{
    if k > 0 {
        lemma_refs_after_setups(states, firsts, k - 1);
        assert(setup_step(states[k - 1], states[k], firsts[k - 1]));
    }
}

/// Law: in any run of the initialize-once routine from a fresh state, however
/// many calls it has and however the callers interleave (the runs a
/// mutual-exclusion lock around the state admits are exactly these
/// sequences), the first call performs the real initialization and no later
/// call does, and the user count — never negative — is exactly the number of
/// calls made so far.
pub proof fn lemma_initialize_once(states: Seq<V8>, firsts: Seq<bool>)
    requires
        states.len() == firsts.len() + 1,
        states[0].refs() == 0,
        forall|i: int|
            #![trigger firsts[i]]
            0 <= i < firsts.len() ==> setup_step(states[i], states[i + 1], firsts[i]),
    ensures
        forall|k: int| 0 <= k < states.len() ==> #[trigger] states[k].refs() == k,
        forall|i: int| 0 <= i < firsts.len() ==> (#[trigger] firsts[i] <==> i == 0),
{
    assert forall|k: int| 0 <= k < states.len() implies #[trigger] states[k].refs() == k by {
        lemma_refs_after_setups(states, firsts, k);
    }
    assert forall|i: int| 0 <= i < firsts.len() implies (#[trigger] firsts[i] <==> i == 0) by {
        lemma_refs_after_setups(states, firsts, i);
        assert(setup_step(states[i], states[i + 1], firsts[i]));
    }
}

} // verus!
