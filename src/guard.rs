//! Saving and restoring the engine's jump-target stack and context-callback
//! chain around protected regions, in strict last-in-first-out order.
use vstd::prelude::*;

verus! {

/// What one guard saved on entry: the jump-target stack top and the head of
/// the context-callback chain, as opaque handles.
#[derive(PartialEq, Eq, Structural, Debug, Clone, Copy)]
pub struct Frame {
    pub saved_top: u64,
    pub saved_context: u64,
}

/// Proof that a guard was entered, owed back to the matching exit. It is not
/// `Clone`, so one token can be spent only once.
pub struct GuardToken {
    depth: usize,
}

impl GuardToken {
    /// How many guards were open when this one was entered.
    pub closed spec fn spec_depth(&self) -> nat {
        self.depth as nat
    }

    pub fn depth(&self) -> (r: usize)
        ensures
            r == self.spec_depth(),
    {
        self.depth
    }
}

/// A guard exit that does not match the innermost open guard.
#[derive(PartialEq, Eq, Structural, Debug, Clone, Copy)]
pub struct StackCorruption;

/// The engine's process-wide jump-target stack top and context-callback chain
/// head, with the frames that open guards saved, innermost last.
pub struct ExceptionStack {
    top: u64,
    context: u64,
    frames: Vec<Frame>,
}

pub struct StackView {
    pub top: u64,
    pub context: u64,
    pub frames: Seq<Frame>,
}

impl View for ExceptionStack {
    type V = StackView;

    closed spec fn view(&self) -> StackView {
        StackView { top: self.top, context: self.context, frames: self.frames@ }
    }
}

/// Entering a guard: save the current handles and make `resume_point` the top.
pub open spec fn enter_spec(s: StackView, resume_point: u64) -> StackView {
    StackView {
        top: resume_point,
        context: s.context,
        frames: s.frames.push(Frame { saved_top: s.top, saved_context: s.context }),
    }
}

/// Leaving the innermost guard: drop its frame and put back what it saved.
pub open spec fn exit_top(s: StackView) -> StackView
    recommends
        s.frames.len() > 0,
{
    let f = s.frames.last();
    StackView { top: f.saved_top, context: f.saved_context, frames: s.frames.drop_last() }
}

/// Leaving the guard entered at `depth`: only the innermost one may leave;
/// any other exit is refused and changes nothing.
pub open spec fn exit_spec(s: StackView, depth: nat) -> (StackView, Result<(), StackCorruption>) {
    if s.frames.len() == depth + 1 {
        (exit_top(s), Ok(()))
    } else {
        (s, Err(StackCorruption))
    }
}

/// Entering one guard for each resume point, first to last.
pub open spec fn enter_all(s: StackView, points: Seq<u64>) -> StackView
    decreases points.len(),
{
    if points.len() == 0 {
        s
    } else {
        enter_spec(enter_all(s, points.drop_last()), points.last())
    }
}

/// Leaving the `n` innermost guards, innermost first.
pub open spec fn exit_n(s: StackView, n: nat) -> StackView
    decreases n,
{
    if n == 0 {
        s
    } else {
        exit_n(exit_top(s), (n - 1) as nat)
    }
}

/// The frames restored while leaving the `n` innermost guards, in the order
/// in which they are restored.
pub open spec fn restored_frames(s: StackView, n: nat) -> Seq<Frame>
    decreases n,
{
    if n == 0 {
        Seq::empty()
    } else {
        seq![s.frames.last()] + restored_frames(exit_top(s), (n - 1) as nat)
    }
}

/// Nested guards that all leave normally, innermost first, give back the
/// engine's state exactly as it was before the outermost one was entered.
pub proof fn lemma_balanced_nesting(s: StackView, points: Seq<u64>)
    ensures
        exit_n(enter_all(s, points), points.len()) == s,
    decreases points.len(),
{
    if points.len() > 0 {
        let inner = enter_all(s, points.drop_last());
        lemma_balanced_nesting(s, points.drop_last());
        assert(exit_top(enter_spec(inner, points.last())).frames =~= inner.frames);
    }
}

/// Unwinding from the innermost of `n` open guards restores each of them
/// once, innermost first: the restored frames are the saved ones in reverse,
/// and the outermost one's saved handles are what remains current.
pub proof fn lemma_unwind_order(s: StackView, n: nat)
    requires
        n <= s.frames.len(),
    ensures
        restored_frames(s, n).len() == n,
        forall|i: int|
            0 <= i < n ==> #[trigger] restored_frames(s, n)[i] == s.frames[s.frames.len() - 1 - i],
        exit_n(s, n).frames == s.frames.take(s.frames.len() - n),
        n > 0 ==> exit_n(s, n).top == s.frames[s.frames.len() - n].saved_top,
        n > 0 ==> exit_n(s, n).context == s.frames[s.frames.len() - n].saved_context,
    decreases n,
{
    if n > 0 {
        let t = exit_top(s);
        lemma_unwind_order(t, (n - 1) as nat);
        assert(t.frames =~= s.frames.take(s.frames.len() - 1));
        assert(exit_n(t, (n - 1) as nat).frames =~= s.frames.take(s.frames.len() - n));
        assert forall|i: int| 0 <= i < n implies #[trigger] restored_frames(s, n)[i]
            == s.frames[s.frames.len() - 1 - i] by {
            if i > 0 {
                assert(restored_frames(s, n)[i] == restored_frames(t, (n - 1) as nat)[i - 1]);
            }
        }
    }
}

/// A guard that has left cannot be left again: an exit for a depth at which
/// no guard is open is refused and changes nothing.
pub proof fn lemma_no_second_exit(s: StackView, depth: nat)
    requires
        depth >= s.frames.len(),
    ensures
        exit_spec(s, depth) == (s, Err::<(), StackCorruption>(StackCorruption)),
{
}

impl ExceptionStack {
    /// The engine's state with no guard open.
    pub fn new(top: u64, context: u64) -> (r: ExceptionStack)
        ensures
            r@ == (StackView { top, context, frames: Seq::empty() }),
    {
        ExceptionStack { top, context, frames: Vec::new() }
    }

    /// The current jump-target stack top.
    pub fn top(&self) -> (r: u64)
        ensures
            r == self@.top,
    {
        self.top
    }

    /// The current head of the context-callback chain.
    pub fn context(&self) -> (r: u64)
        ensures
            r == self@.context,
    {
        self.context
    }

    /// How many guards are open.
    pub fn depth(&self) -> (r: usize)
        ensures
            r == self@.frames.len(),
    {
        self.frames.len()
    }

    /// Opens a guard: saves the current handles and installs `resume_point`.
    pub fn enter(&mut self, resume_point: u64) -> (token: GuardToken)
        requires
            old(self)@.frames.len() < usize::MAX,
        ensures
            final(self)@ == enter_spec(old(self)@, resume_point),
            token.spec_depth() == old(self)@.frames.len(),
    {
        let depth = self.frames.len();
        self.frames.push(Frame { saved_top: self.top, saved_context: self.context });
        self.top = resume_point;
        GuardToken { depth }
    }

    /// Closes the guard that `token` stands for, restoring what it saved.
    /// Fails, changing nothing, unless that guard is the innermost one open.
    pub fn exit(&mut self, token: GuardToken) -> (r: Result<(), StackCorruption>)
        ensures
            (final(self)@, r) == exit_spec(old(self)@, token.spec_depth()),
    {
        if self.frames.len() > 0 && self.frames.len() - 1 == token.depth {
            let f = self.frames.pop().unwrap();
            self.top = f.saved_top;
            self.context = f.saved_context;
            Ok(())
        } else {
            Err(StackCorruption)
        }
    }
}

} // verus!
