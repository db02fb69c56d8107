use vstd::prelude::*;

use crate::frame::{apply_opt, Frame, FrameAction};
use crate::state::{obs_eq, FrameState};

verus! {

/// One mutation and its inverse: what redoes the change and what undoes
/// it. A missing inverse marks an irreversible change (a console print,
/// a pop of an empty stack); a missing redo never arises here but keeps
/// the pair symmetric.
#[derive(Debug)]
pub struct ReciprocalAction {
    pub redo: Option<FrameAction>,
    pub undo: Option<FrameAction>,
}

/// True when the pair's inverse really restores state `s` after its redo
/// ran there, up to the console. Every pair produced by
/// [`crate::Frame::act`] satisfies it for the state it was produced in.
pub open spec fn ra_valid(ra: ReciprocalAction, s: FrameState) -> bool {
    obs_eq(apply_opt(ra.undo, apply_opt(ra.redo, s)), s)
}

/// The state after running the redo parts of `actions` in order from
/// state `s`.
pub open spec fn redo_run(actions: Seq<ReciprocalAction>, s: FrameState) -> FrameState
    decreases actions.len(),
{
    if actions.len() == 0 {
        s
    } else {
        redo_run(actions.drop_first(), apply_opt(actions[0].redo, s))
    }
}

/// The state after running the undo parts of `actions` in reverse order
/// from state `t`: the first action's undo runs last.
pub open spec fn undo_run(actions: Seq<ReciprocalAction>, t: FrameState) -> FrameState
    decreases actions.len(),
{
    if actions.len() == 0 {
        t
    } else {
        apply_opt(actions[0].undo, undo_run(actions.drop_first(), t))
    }
}

/// True when every pair of `actions` restores the intermediate state it
/// was produced in: the condition under which an artifact is reversible
/// from `s`.
pub open spec fn valid_from(actions: Seq<ReciprocalAction>, s: FrameState) -> bool
    decreases actions.len(),
{
    actions.len() == 0 || (ra_valid(actions[0], s) && valid_from(
        actions.drop_first(),
        apply_opt(actions[0].redo, s),
    ))
}

/// A transition cannot tell two observationally equal states apart: it
/// sends them to observationally equal states.
pub proof fn lemma_apply_opt_congruent(a: Option<FrameAction>, s1: FrameState, s2: FrameState)
    requires
        obs_eq(s1, s2),
    ensures
        obs_eq(apply_opt(a, s1), apply_opt(a, s2)),
{
}

/// Redoing a composite from either of two observationally equal states
/// lands in observationally equal states.
pub proof fn lemma_redo_run_congruent(actions: Seq<ReciprocalAction>, s1: FrameState, s2: FrameState)
    requires
        obs_eq(s1, s2),
    ensures
        obs_eq(redo_run(actions, s1), redo_run(actions, s2)),
    decreases actions.len(),
{
    if actions.len() > 0 {
        lemma_apply_opt_congruent(actions[0].redo, s1, s2);
        lemma_redo_run_congruent(actions.drop_first(), apply_opt(actions[0].redo, s1), apply_opt(actions[0].redo, s2));
    }
}

/// Undoing a composite from either of two observationally equal states
/// lands in observationally equal states.
pub proof fn lemma_undo_run_congruent(actions: Seq<ReciprocalAction>, t1: FrameState, t2: FrameState)
    requires
        obs_eq(t1, t2),
    ensures
        obs_eq(undo_run(actions, t1), undo_run(actions, t2)),
    decreases actions.len(),
{
    if actions.len() > 0 {
        lemma_undo_run_congruent(actions.drop_first(), t1, t2);
        lemma_apply_opt_congruent(actions[0].undo, undo_run(actions.drop_first(), t1), undo_run(actions.drop_first(), t2));
    }
}

/// The reversibility of one artifact, however it was composed: running
/// its undos in reverse order takes the state its redos reach back to
/// the state it started from, up to the console.
pub proof fn lemma_artifact_reciprocity(actions: Seq<ReciprocalAction>, s: FrameState)
    requires
        valid_from(actions, s),
    ensures
        obs_eq(undo_run(actions, redo_run(actions, s)), s),
    decreases actions.len(),
{
    if actions.len() > 0 {
        let rest = actions.drop_first();
        let s1 = apply_opt(actions[0].redo, s);
        lemma_artifact_reciprocity(rest, s1);
        lemma_apply_opt_congruent(actions[0].undo, undo_run(rest, redo_run(rest, s1)), s1);
    }
}

/// Composing two artifacts that are reversible in sequence gives a
/// reversible artifact, whose redo run chains theirs.
pub proof fn lemma_valid_from_concat(a: Seq<ReciprocalAction>, b: Seq<ReciprocalAction>, s: FrameState)
    requires
        valid_from(a, s),
        valid_from(b, redo_run(a, s)),
    ensures
        valid_from(a + b, s),
        redo_run(a + b, s) == redo_run(b, redo_run(a, s)),
    decreases a.len(),
{
    if a.len() == 0 {
        assert(a + b =~= b);
        assert(redo_run(a, s) == s);
    } else {
        let s1 = apply_opt(a[0].redo, s);
        lemma_valid_from_concat(a.drop_first(), b, s1);
        assert((a + b).drop_first() =~= a.drop_first() + b);
        assert(ra_valid((a + b)[0], s));
    }
}

/// True when a sequence of artifacts is reversible in order from `s`:
/// each is reversible from the state the ones before it reach. The
/// artifacts a host accumulates by acting on one frame satisfy it.
pub open spec fn history_valid(artifacts: Seq<Seq<ReciprocalAction>>, s: FrameState) -> bool
    decreases artifacts.len(),
{
    artifacts.len() == 0 || (valid_from(artifacts[0], s) && history_valid(
        artifacts.drop_first(),
        redo_run(artifacts[0], s),
    ))
}

/// The state a sequence of artifacts reaches when each is redone in
/// order from `s`.
pub open spec fn redo_all(artifacts: Seq<Seq<ReciprocalAction>>, s: FrameState) -> FrameState
    decreases artifacts.len(),
{
    if artifacts.len() == 0 {
        s
    } else {
        redo_all(artifacts.drop_first(), redo_run(artifacts[0], s))
    }
}

/// The state a sequence of artifacts reaches when each is undone, most
/// recent first, from `t`.
pub open spec fn undo_all(artifacts: Seq<Seq<ReciprocalAction>>, t: FrameState) -> FrameState
    decreases artifacts.len(),
{
    if artifacts.len() == 0 {
        t
    } else {
        undo_run(artifacts[0], undo_all(artifacts.drop_first(), t))
    }
}

/// Redoing a sequence of artifacts from either of two observationally
/// equal states lands in observationally equal states.
pub proof fn lemma_redo_all_congruent(
    artifacts: Seq<Seq<ReciprocalAction>>,
    t1: FrameState,
    t2: FrameState,
)
    requires
        obs_eq(t1, t2),
    ensures
        obs_eq(redo_all(artifacts, t1), redo_all(artifacts, t2)),
    decreases artifacts.len(),
{
    if artifacts.len() > 0 {
        lemma_redo_run_congruent(artifacts[0], t1, t2);
        lemma_redo_all_congruent(
            artifacts.drop_first(),
            redo_run(artifacts[0], t1),
            redo_run(artifacts[0], t2),
        );
    }
}

/// The reciprocity of a whole history: for any artifacts accumulated in
/// order from a state, undoing all of them, most recent first, restores
/// that state, and redoing all of them again restores the state they
/// had reached — both up to the console, which is an append-only log.
pub proof fn lemma_history_reciprocity(artifacts: Seq<Seq<ReciprocalAction>>, s: FrameState)
    requires
        history_valid(artifacts, s),
    ensures
        obs_eq(undo_all(artifacts, redo_all(artifacts, s)), s),
        obs_eq(redo_all(artifacts, undo_all(artifacts, redo_all(artifacts, s))), redo_all(
            artifacts,
            s,
        )),
    decreases artifacts.len(),
{
    if artifacts.len() > 0 {
        let rest = artifacts.drop_first();
        let s1 = redo_run(artifacts[0], s);
        lemma_history_reciprocity(rest, s1);
        lemma_undo_run_congruent(
            artifacts[0],
            undo_all(rest, redo_all(rest, s1)),
            s1,
        );
        lemma_artifact_reciprocity(artifacts[0], s);
    }
    lemma_redo_all_congruent(artifacts, undo_all(artifacts, redo_all(artifacts, s)), s);
}

/// An ordered list of reciprocal pairs: one logical mutation, possibly
/// composed of several primitive ones (an opcode evaluation, a composite
/// edit).
///
/// Undoing the whole composite runs the undos in reverse order; redoing
/// it runs the redos in forward order.
#[derive(Debug)]
pub struct Artifact {
    actions: Vec<ReciprocalAction>,
}

impl View for Artifact {
    type V = Seq<ReciprocalAction>;

    closed spec fn view(&self) -> Seq<ReciprocalAction> {
        self.actions@
    }
}

impl Artifact {
    /// An artifact of no actions: nothing to redo or undo.
    pub fn empty() -> (r: Self)
        ensures
            r@ == Seq::<ReciprocalAction>::empty(),
    {
        let r = Artifact { actions: Vec::new() };
        proof {
            assert(r@ =~= Seq::<ReciprocalAction>::empty());
        }
        r
    }

    /// True if the artifact holds no actions.
    pub fn is_empty(&self) -> (r: bool)
        ensures
            r == (self@.len() == 0),
    {
        self.actions.len() == 0
    }

    /// An artifact of one redo-only action: a change with no inverse.
    pub fn from_redo(redo: FrameAction) -> (r: Self)
        ensures
            r@ == seq![ReciprocalAction { redo: Some(redo), undo: None }],
    {
        let mut actions = Vec::new();
        actions.push(ReciprocalAction { redo: Some(redo), undo: None });
        let r = Artifact { actions };
        proof {
            assert(r@ =~= seq![ReciprocalAction { redo: Some(redo), undo: None }]);
        }
        r
    }

    /// An artifact of one reciprocal pair: a change and its inverse.
    pub fn from_redo_undo(redo: FrameAction, undo: FrameAction) -> (r: Self)
        ensures
            r@ == seq![ReciprocalAction { redo: Some(redo), undo: Some(undo) }],
    {
        let mut actions = Vec::new();
        actions.push(ReciprocalAction { redo: Some(redo), undo: Some(undo) });
        let r = Artifact { actions };
        proof {
            assert(r@ =~= seq![ReciprocalAction { redo: Some(redo), undo: Some(undo) }]);
        }
        r
    }

    /// Appends another artifact's actions to this one, in order: the
    /// composite redoes this artifact first and undoes it last.
    pub fn push(&mut self, other: Self)
        ensures
            final(self)@ == old(self)@ + other@,
    {
        let tail = other.actions;
        let n = tail.len();
        let mut i: usize = 0;
        proof {
            assert(old(self)@ + tail@.subrange(0, 0) =~= old(self)@);
        }
        while i < n
            invariant
                i <= n,
                n == tail@.len(),
                self@ == old(self)@ + tail@.subrange(0, i as int),
            decreases n - i,
        {
            let ra = clone_ra(&tail[i]);
            self.actions.push(ra);
            proof {
                assert(self@ =~= old(self)@ + tail@.subrange(0, i + 1));
            }
            i = i + 1;
        }
        proof {
            assert(tail@.subrange(0, n as int) =~= tail@);
        }
    }

    /// The redo part of the last action, if any.
    pub fn last_redo_action(&self) -> (r: Option<FrameAction>)
        ensures
            self@.len() == 0 ==> r is None,
            self@.len() > 0 ==> r == self@.last().redo,
    {
        match self.actions.last() {
            Some(ra) => clone_opt_action(&ra.redo),
            None => None,
        }
    }

    /// The undo part of the last action, if any.
    pub fn last_undo_action(&self) -> (r: Option<FrameAction>)
        ensures
            self@.len() == 0 ==> r is None,
            self@.len() > 0 ==> r == self@.last().undo,
    {
        match self.actions.last() {
            Some(ra) => clone_opt_action(&ra.undo),
            None => None,
        }
    }

    /// Runs the redo parts in forward order against `frame`.
    fn redo(&self, frame: &mut Frame)
        ensures
            final(frame)@ == redo_run(self@, old(frame)@),
    {
        let n = self.actions.len();
        let mut i: usize = 0;
        proof {
            assert(self@.subrange(0, n as int) =~= self@);
        }
        while i < n
            invariant
                i <= n,
                n == self@.len(),
                redo_run(self@.subrange(i as int, n as int), frame@) == redo_run(
                    self@,
                    old(frame)@,
                ),
            decreases n - i,
        {
            let ghost pending = self@.subrange(i as int, n as int);
            match &self.actions[i].redo {
                Some(action) => {
                    let _ = action.act(frame);
                },
                None => {},
            }
            proof {
                assert(pending.drop_first() =~= self@.subrange(i + 1, n as int));
            }
            i = i + 1;
        }
    }

    /// Runs the undo parts in reverse order against `frame`.
    fn undo(&self, frame: &mut Frame)
        ensures
            final(frame)@ == undo_run(self@, old(frame)@),
    {
        let n = self.actions.len();
        let mut i: usize = n;
        proof {
            assert(self@.subrange(n as int, n as int) =~= Seq::<ReciprocalAction>::empty());
        }
        while i > 0
            invariant
                i <= n,
                n == self@.len(),
                frame@ == undo_run(self@.subrange(i as int, n as int), old(frame)@),
            decreases i,
        {
            let ghost pending = self@.subrange(i - 1, n as int);
            match &self.actions[i - 1].undo {
                Some(action) => {
                    let _ = action.act(frame);
                },
                None => {},
            }
            proof {
                assert(pending.drop_first() =~= self@.subrange(i as int, n as int));
            }
            i = i - 1;
        }
        proof {
            assert(self@.subrange(0, n as int) =~= self@);
        }
    }
}

impl Clone for Artifact {
    /// An identical artifact.
    fn clone(&self) -> (r: Self)
        ensures
            r@ == self@,
    {
        let n = self.actions.len();
        let mut actions: Vec<ReciprocalAction> = Vec::new();
        let mut i: usize = 0;
        while i < n
            invariant
                i <= n,
                n == self@.len(),
                actions@ == self@.subrange(0, i as int),
            decreases n - i,
        {
            actions.push(clone_ra(&self.actions[i]));
            proof {
                assert(actions@ =~= self@.subrange(0, i + 1));
            }
            i = i + 1;
        }
        proof {
            assert(self@.subrange(0, n as int) =~= self@);
        }
        Artifact { actions }
    }
}

/// An identical reciprocal pair.
fn clone_ra(ra: &ReciprocalAction) -> (r: ReciprocalAction)
    ensures
        r == *ra,
{
    ReciprocalAction { redo: clone_opt_action(&ra.redo), undo: clone_opt_action(&ra.undo) }
}

/// An identical optional action.
fn clone_opt_action(a: &Option<FrameAction>) -> (r: Option<FrameAction>)
    ensures
        r == *a,
{
    match a {
        Some(action) => Some(action.clone()),
        None => None,
    }
}

/// A reversible-action log with a cursor: the artifacts before the
/// cursor are done and undoable, those at or after it are undone and
/// redoable.
///
/// Appending while some artifacts are undone discards them: the history
/// is linear.
#[derive(Debug)]
pub struct History {
    artifacts: Vec<Artifact>,
    cursor: usize,
}

impl History {
    #[verifier::type_invariant]
    spec fn wf(self) -> bool {
        self.cursor <= self.artifacts@.len()
    }

    /// The logged artifacts, as their action lists, oldest first.
    pub closed spec fn artifacts_spec(self) -> Seq<Seq<ReciprocalAction>> {
        self.artifacts@.map_values(|a: Artifact| a@)
    }

    /// The cursor: how many logged artifacts are currently done.
    pub closed spec fn cursor_spec(self) -> int {
        self.cursor as int
    }

    /// An empty history.
    pub fn new() -> (r: Self)
        ensures
            r.artifacts_spec() == Seq::<Seq<ReciprocalAction>>::empty(),
            r.cursor_spec() == 0,
    {
        let r = History { artifacts: Vec::new(), cursor: 0 };
        proof {
            assert(r.artifacts_spec() =~= Seq::<Seq<ReciprocalAction>>::empty());
        }
        r
    }

    /// Logs an artifact as done: discards everything at or after the
    /// cursor — the redoable branch — appends the artifact, and puts the
    /// cursor after it. An empty artifact is not logged at all.
    ///
    /// Afterwards the cursor sits at the end of the log, so nothing is
    /// redoable until the next undo.
    pub fn append(&mut self, artifact: Artifact)
        ensures
            artifact@.len() == 0 ==> final(self).artifacts_spec() == old(self).artifacts_spec()
                && final(self).cursor_spec() == old(self).cursor_spec(),
            artifact@.len() > 0 ==> {
                &&& final(self).artifacts_spec() == old(self).artifacts_spec().subrange(
                    0,
                    old(self).cursor_spec(),
                ).push(artifact@)
                &&& final(self).cursor_spec() == old(self).cursor_spec() + 1
                &&& final(self).cursor_spec() == final(self).artifacts_spec().len()
            },
    {
        proof {
            use_type_invariant(&*self);
        }
        if artifact.is_empty() {
            return ;
        }
        let cur = self.cursor;
        let mut arts: Vec<Artifact> = Vec::new();
        self.cursor = 0;
        std::mem::swap(&mut self.artifacts, &mut arts);
        proof {
            assert(arts@ =~= old(self).artifacts@.subrange(0, arts@.len() as int));
        }
        while arts.len() > cur
            invariant
                cur <= arts@.len(),
                arts@.len() <= old(self).artifacts@.len(),
                arts@ == old(self).artifacts@.subrange(0, arts@.len() as int),
            decreases arts@.len(),
        {
            let _ = arts.pop();
            proof {
                assert(arts@ =~= old(self).artifacts@.subrange(0, arts@.len() as int));
            }
        }
        arts.push(artifact);
        let c = arts.len();
        std::mem::swap(&mut self.artifacts, &mut arts);
        self.cursor = c;
        proof {
            assert(final(self).artifacts_spec() =~= old(self).artifacts_spec().subrange(
                0,
                old(self).cursor_spec(),
            ).push(artifact@));
        }
    }

    /// Extends the most recent logged artifact with this one's actions,
    /// so both undo as one step; logs it as [`History::append`] does
    /// when the history is empty. An empty artifact changes nothing.
    pub fn merge_with_last(&mut self, artifact: Artifact)
        ensures
            artifact@.len() == 0 ==> final(self).artifacts_spec() == old(self).artifacts_spec()
                && final(self).cursor_spec() == old(self).cursor_spec(),
            artifact@.len() > 0 && old(self).artifacts_spec().len() == 0 ==> {
                &&& final(self).artifacts_spec() == seq![artifact@]
                &&& final(self).cursor_spec() == 1
            },
            artifact@.len() > 0 && old(self).artifacts_spec().len() > 0 ==> {
                &&& final(self).artifacts_spec() == old(self).artifacts_spec().update(
                    old(self).artifacts_spec().len() - 1,
                    old(self).artifacts_spec().last() + artifact@,
                )
                &&& final(self).cursor_spec() == old(self).cursor_spec()
            },
    {
        proof {
            use_type_invariant(&*self);
        }
        if artifact.is_empty() {
            return ;
        }
        if self.artifacts.len() == 0 {
            self.append(artifact);
            proof {
                assert(final(self).artifacts_spec() =~= seq![artifact@]);
            }
            return ;
        }
        let cur = self.cursor;
        let mut arts: Vec<Artifact> = Vec::new();
        self.cursor = 0;
        std::mem::swap(&mut self.artifacts, &mut arts);
        match arts.pop() {
            Some(mut last) => {
                last.push(artifact);
                arts.push(last);
            },
            None => {},
        }
        std::mem::swap(&mut self.artifacts, &mut arts);
        self.cursor = cur;
        proof {
            assert(final(self).artifacts_spec() =~= old(self).artifacts_spec().update(
                old(self).artifacts_spec().len() - 1,
                old(self).artifacts_spec().last() + artifact@,
            ));
        }
    }

    /// Undoes the most recent done artifact against `frame`, moves the
    /// cursor back over it, and returns a copy of it, so a caller can
    /// inspect what was undone. A no-op returning an empty artifact when
    /// nothing is done.
    pub fn undo(&mut self, frame: &mut Frame) -> (r: Artifact)
        ensures
            old(self).cursor_spec() == 0 ==> {
                &&& final(self).artifacts_spec() == old(self).artifacts_spec()
                &&& final(self).cursor_spec() == 0
                &&& final(frame)@ == old(frame)@
                &&& r@.len() == 0
            },
            old(self).cursor_spec() > 0 ==> {
                &&& final(self).artifacts_spec() == old(self).artifacts_spec()
                &&& final(self).cursor_spec() == old(self).cursor_spec() - 1
                &&& r@ == old(self).artifacts_spec()[old(self).cursor_spec() - 1]
                &&& final(frame)@ == undo_run(r@, old(frame)@)
            },
    {
        proof {
            use_type_invariant(&*self);
        }
        if self.cursor == 0 {
            return Artifact::empty();
        }
        let at = self.cursor - 1;
        let artifact = self.artifacts[at].clone();
        artifact.undo(frame);
        self.cursor = at;
        artifact
    }

    /// Redoes the artifact at the cursor against `frame`, moves the
    /// cursor past it, and returns a copy of it. A no-op returning an
    /// empty artifact when nothing is redoable.
    pub fn redo(&mut self, frame: &mut Frame) -> (r: Artifact)
        ensures
            old(self).cursor_spec() == old(self).artifacts_spec().len() ==> {
                &&& final(self).artifacts_spec() == old(self).artifacts_spec()
                &&& final(self).cursor_spec() == old(self).cursor_spec()
                &&& final(frame)@ == old(frame)@
                &&& r@.len() == 0
            },
            old(self).cursor_spec() < old(self).artifacts_spec().len() ==> {
                &&& final(self).artifacts_spec() == old(self).artifacts_spec()
                &&& final(self).cursor_spec() == old(self).cursor_spec() + 1
                &&& r@ == old(self).artifacts_spec()[old(self).cursor_spec()]
                &&& final(frame)@ == redo_run(r@, old(frame)@)
            },
    {
        proof {
            use_type_invariant(&*self);
        }
        if self.cursor == self.artifacts.len() {
            return Artifact::empty();
        }
        let artifact = self.artifacts[self.cursor].clone();
        artifact.redo(frame);
        self.cursor = self.cursor + 1;
        artifact
    }
}

impl Default for History {
    /// An empty history.
    fn default() -> (r: Self)
        ensures
            r.artifacts_spec() == Seq::<Seq<ReciprocalAction>>::empty(),
            r.cursor_spec() == 0,
    {
        History::new()
    }
}

} // verus!
