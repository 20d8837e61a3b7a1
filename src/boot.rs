//! The hart bootstrap protocol: one designated hart performs the one-time global
//! initialization and publishes a ready flag; every other hart waits for it.
//! Each hart's next move is a pure decision from its phase and what it observed
//! of the flag; the caller performs the move and reports back.

use vstd::prelude::*;

verus! {

/// The id of the hart that performs global initialization.
pub const INIT_HART: usize = 0;

/// The bytes of stack that each hart owns.
pub const STACK_SIZE_PER_HART: usize = 0x4000;

/// The number of harts for which stack is reserved.
pub const MAX_HARTS: usize = 4;

/// The stack top of hart `hart_id`: `base` is the top of hart 0's stack, and
/// each hart's stack is the `STACK_SIZE_PER_HART` bytes below its top.
pub open spec fn stack_top_of(base: int, hart_id: int) -> int {
    base + hart_id * STACK_SIZE_PER_HART
}

/// Whether address `a` lies on the stack of hart `hart_id`.
pub open spec fn on_stack_of(base: int, hart_id: int, a: int) -> bool {
    stack_top_of(base, hart_id) - STACK_SIZE_PER_HART <= a < stack_top_of(base, hart_id)
}

/// The initial stack pointer of hart `hart_id`; `None` for a hart beyond
/// `MAX_HARTS`, for which no stack is reserved, or where the reservation would
/// not fit in the address space.
pub fn stack_top(base: usize, hart_id: usize) -> (r: Option<usize>)
    ensures
        r is Some <==> hart_id < MAX_HARTS && STACK_SIZE_PER_HART <= base
            && stack_top_of(base as int, MAX_HARTS - 1) <= usize::MAX,
        r matches Some(top) ==> top == stack_top_of(base as int, hart_id as int),
{
    if hart_id >= MAX_HARTS || base < STACK_SIZE_PER_HART {
        return None;
    }
    if base > usize::MAX - (MAX_HARTS - 1) * STACK_SIZE_PER_HART {
        return None;
    }
    Some(base + hart_id * STACK_SIZE_PER_HART)
}

/// The stacks of distinct harts never overlap, and together they fill exactly
/// `MAX_HARTS * STACK_SIZE_PER_HART` bytes from `base - STACK_SIZE_PER_HART`.
pub proof fn lemma_stacks_disjoint(base: int, h1: int, h2: int, a: int)
    requires
        0 <= h1 < MAX_HARTS,
        0 <= h2 < MAX_HARTS,
        h1 != h2,
    ensures
        !(on_stack_of(base, h1, a) && on_stack_of(base, h2, a)),
        on_stack_of(base, h1, a) ==> base - STACK_SIZE_PER_HART <= a
            < base - STACK_SIZE_PER_HART + MAX_HARTS * STACK_SIZE_PER_HART,
{
}

/// Where one hart stands in the bootstrap protocol.
#[derive(Debug, Copy, Clone, PartialEq, Eq, Structural)]
pub enum HartPhase {
    /// Just entered from the entry stub.
    Entered,
    /// The initializing hart has brought up the console.
    ConsoleReady,
    /// The initializing hart has installed the heap.
    HeapReady,
    /// The initializing hart has published the ready flag.
    Published,
    /// A waiting hart saw the flag still clear and is spinning.
    Waiting,
    /// The hart is running the user entry point.
    InMain,
    /// The user entry point returned; the hart has asked for shutdown.
    ShutDown,
}

/// What the hart must do next.
#[derive(Debug, Copy, Clone, PartialEq, Eq, Structural)]
pub enum BootAction {
    /// Initialize the console/log subsystem.
    InitConsole,
    /// Install the heap region into the global allocator.
    InstallHeap,
    /// Store the ready flag with release ordering.
    PublishReady,
    /// Issue a spin hint, then load the ready flag again with acquire ordering.
    Spin,
    /// Call the user entry point with the hart id and device-tree address.
    EnterMain,
    /// Issue the firmware shutdown call.
    Shutdown,
    /// Shutdown came back: wait for interrupts forever.
    Halt,
}

/// The protocol's transition: the next phase and the action that leads there.
pub open spec fn next_move(hart_id: int, phase: HartPhase, ready: bool) -> (HartPhase, BootAction) {
    match phase {
        HartPhase::Entered => if hart_id == INIT_HART {
            (HartPhase::ConsoleReady, BootAction::InitConsole)
        } else if ready {
            (HartPhase::InMain, BootAction::EnterMain)
        } else {
            (HartPhase::Waiting, BootAction::Spin)
        },
        HartPhase::ConsoleReady => (HartPhase::HeapReady, BootAction::InstallHeap),
        HartPhase::HeapReady => (HartPhase::Published, BootAction::PublishReady),
        HartPhase::Published => (HartPhase::InMain, BootAction::EnterMain),
        HartPhase::Waiting => if ready {
            (HartPhase::InMain, BootAction::EnterMain)
        } else {
            (HartPhase::Waiting, BootAction::Spin)
        },
        HartPhase::InMain => (HartPhase::ShutDown, BootAction::Shutdown),
        HartPhase::ShutDown => (HartPhase::ShutDown, BootAction::Halt),
    }
}

/// Decides a hart's next move from its id, its phase and the value of the ready
/// flag that it last loaded (with acquire ordering).
pub fn next_step(hart_id: usize, phase: HartPhase, ready: bool) -> (r: (HartPhase, BootAction))
    ensures
        r == next_move(hart_id as int, phase, ready),
{
    match phase {
        HartPhase::Entered => if hart_id == INIT_HART {
            (HartPhase::ConsoleReady, BootAction::InitConsole)
        } else if ready {
            (HartPhase::InMain, BootAction::EnterMain)
        } else {
            (HartPhase::Waiting, BootAction::Spin)
        },
        HartPhase::ConsoleReady => (HartPhase::HeapReady, BootAction::InstallHeap),
        HartPhase::HeapReady => (HartPhase::Published, BootAction::PublishReady),
        HartPhase::Published => (HartPhase::InMain, BootAction::EnterMain),
        HartPhase::Waiting => if ready {
            (HartPhase::InMain, BootAction::EnterMain)
        } else {
            (HartPhase::Waiting, BootAction::Spin)
        },
        HartPhase::InMain => (HartPhase::ShutDown, BootAction::Shutdown),
        HartPhase::ShutDown => (HartPhase::ShutDown, BootAction::Halt),
    }
}

/// The shared state of a machine of harts going through the protocol.
pub ghost struct BootState {
    /// The ready flag.
    pub ready: bool,
    /// The console/log subsystem has been initialized.
    pub console_ready: bool,
    /// How many times the heap has been installed.
    pub heap_installs: nat,
    /// The phase of each hart, indexed by hart id.
    pub phases: Seq<HartPhase>,
}

/// Global initialization is complete and visible: console up, heap installed once.
pub open spec fn initialized(s: BootState) -> bool {
    s.console_ready && s.heap_installs == 1
}

/// A hart that has started (or finished) running the user entry point.
pub open spec fn past_main_entry(p: HartPhase) -> bool {
    p == HartPhase::InMain || p == HartPhase::ShutDown
}

/// The states that the protocol can reach from boot: the shared state is fixed
/// by the initializing hart's phase, only that hart goes through the
/// initialization phases, and no hart runs user code before the flag is set.
pub open spec fn reachable(s: BootState) -> bool {
    &&& s.phases.len() >= 1
    &&& match s.phases[0] {
        HartPhase::Entered => !s.ready && !s.console_ready && s.heap_installs == 0,
        HartPhase::ConsoleReady => !s.ready && s.console_ready && s.heap_installs == 0,
        HartPhase::HeapReady => !s.ready && s.console_ready && s.heap_installs == 1,
        HartPhase::Waiting => false,
        _ => s.ready && initialized(s),
    }
    &&& forall|i: int| 1 <= i < s.phases.len() ==> {
        let p = #[trigger] s.phases[i];
        &&& (p == HartPhase::Entered || p == HartPhase::Waiting || past_main_entry(p))
        &&& past_main_entry(p) ==> s.ready
    }
}

/// The effect of one move of hart `h` on the shared state.
pub open spec fn after_move(s: BootState, h: int) -> BootState {
    let (phase, action) = next_move(h, s.phases[h], s.ready);
    BootState {
        ready: s.ready || action == BootAction::PublishReady,
        console_ready: s.console_ready || action == BootAction::InitConsole,
        heap_installs: if action == BootAction::InstallHeap {
            s.heap_installs + 1
        } else {
            s.heap_installs
        },
        phases: s.phases.update(h, phase),
    }
}

/// The state after the harts of `schedule` have moved, one after another.
pub open spec fn after_schedule(s: BootState, schedule: Seq<int>) -> BootState
    decreases schedule.len(),
{
    if schedule.len() == 0 {
        s
    } else {
        after_schedule(after_move(s, schedule[0]), schedule.drop_first())
    }
}

/// The state at reset: every one of `n` harts has just entered.
pub open spec fn boot_state(n: nat) -> BootState {
    BootState {
        ready: false,
        console_ready: false,
        heap_installs: 0,
        phases: Seq::new(n, |i: int| HartPhase::Entered),
    }
}

/// Every hart id of a schedule names a hart of the machine.
pub open spec fn valid_schedule(s: BootState, schedule: Seq<int>) -> bool {
    forall|k: int| 0 <= k < schedule.len() ==> 0 <= #[trigger] schedule[k] < s.phases.len()
}

/// The machine at reset is in a reachable state.
pub proof fn lemma_boot_state_reachable(n: nat)
    requires
        n >= 1,
    ensures
        reachable(boot_state(n)),
{
}

/// One move keeps the state reachable; the ready flag is never cleared; the
/// heap is installed only while it is not yet installed; and a hart enters the
/// user entry point only when initialization is complete.
pub proof fn lemma_move_step(s: BootState, h: int)
    requires
        reachable(s),
        0 <= h < s.phases.len(),
    ensures
        reachable(after_move(s, h)),
        s.ready ==> after_move(s, h).ready,
        next_move(h, s.phases[h], s.ready).1 == BootAction::InstallHeap ==> s.heap_installs == 0,
        next_move(h, s.phases[h], s.ready).1 == BootAction::EnterMain ==> initialized(s),
{
    let t = after_move(s, h);
    assert forall|i: int| 1 <= i < t.phases.len() implies {
        let p = #[trigger] t.phases[i];
        &&& (p == HartPhase::Entered || p == HartPhase::Waiting || past_main_entry(p))
        &&& past_main_entry(p) ==> t.ready
    } by {
        if i != h {
            assert(t.phases[i] == s.phases[i]);
        }
    }
}

/// Once set, the ready flag stays set whatever the harts do next.
pub proof fn lemma_ready_stays_set(s: BootState, schedule: Seq<int>)
    requires
        reachable(s),
        valid_schedule(s, schedule),
        s.ready,
    ensures
        after_schedule(s, schedule).ready,
        reachable(after_schedule(s, schedule)),
    decreases schedule.len(),
{
    if schedule.len() > 0 {
        lemma_move_step(s, schedule[0]);
        let t = after_move(s, schedule[0]);
        assert(valid_schedule(t, schedule.drop_first())) by {
            assert forall|k: int| 0 <= k < schedule.drop_first().len() implies 0
                <= #[trigger] schedule.drop_first()[k] < t.phases.len() by {
                assert(schedule.drop_first()[k] == schedule[k + 1]);
            }
        }
        lemma_ready_stays_set(t, schedule.drop_first());
    }
}

/// Whatever the order in which the harts move, every hart that has reached the
/// user entry point did so after the heap was installed exactly once and the
/// console was brought up.
pub proof fn lemma_main_after_initialization(s: BootState, schedule: Seq<int>, h: int)
    requires
        reachable(s),
        valid_schedule(s, schedule),
        0 <= h < s.phases.len(),
    ensures
        reachable(after_schedule(s, schedule)),
        past_main_entry(after_schedule(s, schedule).phases[h]) ==> initialized(after_schedule(s, schedule)),
        after_schedule(s, schedule).heap_installs <= 1,
        after_schedule(s, schedule).phases.len() == s.phases.len(),
    decreases schedule.len(),
{
    if schedule.len() > 0 {
        lemma_move_step(s, schedule[0]);
        let t = after_move(s, schedule[0]);
        assert(valid_schedule(t, schedule.drop_first())) by {
            assert forall|k: int| 0 <= k < schedule.drop_first().len() implies 0
                <= #[trigger] schedule.drop_first()[k] < t.phases.len() by {
                assert(schedule.drop_first()[k] == schedule[k + 1]);
            }
        }
        lemma_main_after_initialization(t, schedule.drop_first(), h);
    } else {
    }
}

/// A machine of harts going through the protocol, each move performed in
/// place: the coordinator object of the protocol, which a test can drive with
/// any interleaving of the harts.
pub struct BootSystem {
    ready: bool,
    console_ready: bool,
    heap_installs: usize,
    phases: Vec<HartPhase>,
}

impl View for BootSystem {
    type V = BootState;

    closed spec fn view(&self) -> BootState {
        BootState {
            ready: self.ready,
            console_ready: self.console_ready,
            heap_installs: self.heap_installs as nat,
            phases: self.phases@,
        }
    }
}

impl BootSystem {
    /// Well-formed: the state is one that the protocol reaches.
    pub open spec fn wf(&self) -> bool {
        reachable(self@)
    }

    /// A machine of `n` harts at reset.
    pub fn new(n: usize) -> (r: BootSystem)
        requires
            n >= 1,
        ensures
            r@ == boot_state(n as nat),
            r.wf(),
    {
        let mut phases: Vec<HartPhase> = Vec::new();
        let mut i: usize = 0;
        while i < n
            invariant
                i <= n,
                phases@ == Seq::new(i as nat, |k: int| HartPhase::Entered),
            decreases n - i,
        {
            phases.push(HartPhase::Entered);
            i = i + 1;
        }
        assert(phases@ =~= Seq::new(n as nat, |k: int| HartPhase::Entered));
        BootSystem { ready: false, console_ready: false, heap_installs: 0, phases }
    }

    /// Lets hart `h` make its next move and performs its effect on the shared
    /// state; returns the action that the hart took.
    pub fn step(&mut self, h: usize) -> (action: BootAction)
        requires
            old(self).wf(),
            h < old(self)@.phases.len(),
        ensures
            final(self).wf(),
            final(self)@ == after_move(old(self)@, h as int),
            action == next_move(h as int, old(self)@.phases[h as int], old(self)@.ready).1,
            action == BootAction::EnterMain ==> initialized(final(self)@),
            old(self)@.ready ==> final(self)@.ready,
    {
        proof {
            lemma_move_step(self@, h as int);
        }
        let (phase, action) = next_step(h, self.phases[h], self.ready);
        match action {
            BootAction::InitConsole => {
                self.console_ready = true;
            },
            BootAction::InstallHeap => {
                self.heap_installs = self.heap_installs + 1;
            },
            BootAction::PublishReady => {
                self.ready = true;
            },
            _ => {},
        }
        self.phases.set(h, phase);
        action
    }

    /// The number of harts.
    pub fn hart_count(&self) -> (r: usize)
        ensures
            r == self@.phases.len(),
    {
        self.phases.len()
    }

    /// The ready flag.
    pub fn is_ready(&self) -> (r: bool)
        ensures
            r == self@.ready,
    {
        self.ready
    }

    /// Whether the console has been initialized.
    pub fn console_ready(&self) -> (r: bool)
        ensures
            r == self@.console_ready,
    {
        self.console_ready
    }

    /// How many times the heap has been installed.
    pub fn heap_installs(&self) -> (r: usize)
        ensures
            r == self@.heap_installs,
    {
        self.heap_installs
    }

    /// The phase of hart `h`.
    pub fn phase(&self, h: usize) -> (r: HartPhase)
        requires
            h < self@.phases.len(),
        ensures
            r == self@.phases[h as int],
    {
        self.phases[h]
    }
}

} // verus!
