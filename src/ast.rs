//! State machines and their states, generic over the phase of the pass that
//! holds them.

use vstd::prelude::*;
use crate::phases::{NoPhase, Phase};
use crate::syntax::{LifetimeDef, Type, TypeParam, WherePredicate};

verus! {

/// A declared generic parameter.
pub enum GenericParam {
    Type(TypeParam),
    Lifetime(LifetimeDef),
    /// A const parameter: its name and its type.
    Const { ident: String, ty: Type },
}

/// A declared generic parameter list and its where-clause.
pub struct Generics {
    pub params: Vec<GenericParam>,
    pub where_clause: Vec<WherePredicate>,
}

/// A field of a state: its name, if it has one, and its type.
pub struct Field {
    pub ident: Option<String>,
    pub ty: Type,
}

/// A description of a state machine: its states, and which is the start
/// state, the ready state and the error state.
pub struct StateMachine<P: Phase> {
    pub ident: String,
    /// The declared visibility, as written.
    pub vis: String,
    pub generics: Generics,
    /// The states, in declaration order.
    pub data: Vec<State<P>>,
    /// Attributes passed through to the generated code, as written.
    pub attrs: Vec<String>,
    /// Further traits that the generated code derives.
    pub derive: Vec<String>,
    /// Extra per-phase data.
    pub extra: P::StateMachineExtra,
}

/// An individual state of a state machine.
pub struct State<P: Phase> {
    pub ident: String,
    pub attrs: Vec<String>,
    pub fields: Vec<Field>,
    /// Whether this is the start state.
    pub start: bool,
    /// Whether this is the ready state.
    pub ready: bool,
    /// Whether this is the error state.
    pub error: bool,
    /// The states that this one can transition to.
    pub transitions: Vec<String>,
    /// Extra per-phase data.
    pub extra: P::StateExtra,
}

/// A role or configuration marker written on a state.
pub enum Marker {
    /// The state is the initial one.
    Start,
    /// The state is the terminal success state.
    Ready,
    /// The state is the terminal failure state.
    Error,
    /// The names of the states that this one can transition to.
    Transitions(Vec<String>),
}

/// Every name listed by the transition markers, marker by marker.
pub open spec fn transitions_of(markers: Seq<Marker>) -> Seq<String>
    decreases markers.len(),
{
    if markers.len() == 0 {
        Seq::empty()
    } else {
        let rest = transitions_of(markers.drop_last());
        match markers.last() {
            Marker::Transitions(names) => rest + names@,
            _ => rest,
        }
    }
}

impl<P: Phase> StateMachine<P> {
    /// `parts` are this machine taken apart: its fields without states or
    /// extra data, its extra data, and its states.
    pub open spec fn split_into(
        self,
        parts: (StateMachine<NoPhase>, P::StateMachineExtra, Vec<State<P>>),
    ) -> bool {
        &&& parts.0.ident == self.ident
        &&& parts.0.vis == self.vis
        &&& parts.0.generics == self.generics
        &&& parts.0.attrs == self.attrs
        &&& parts.0.derive == self.derive
        &&& parts.0.data@.len() == 0
        &&& parts.1 == self.extra
        &&& parts.2 == self.data
    }

    /// Splits this state machine into its parts, separating the per-phase data
    /// from it.
    pub fn split(self) -> (r: (StateMachine<NoPhase>, P::StateMachineExtra, Vec<State<P>>))
        ensures
            self.split_into(r),
    {
        let machine = StateMachine {
            ident: self.ident,
            vis: self.vis,
            generics: self.generics,
            data: Vec::new(),
            attrs: self.attrs,
            derive: self.derive,
            extra: (),
        };
        (machine, self.extra, self.data)
    }

    /// Splits this state machine into its parts, and hands them to `f` to build
    /// a state machine in another phase.
    pub fn and_then<F, Q: Phase>(self, f: F) -> (r: StateMachine<Q>)
        where
            F: FnOnce(StateMachine<NoPhase>, P::StateMachineExtra, Vec<State<P>>) -> StateMachine<Q>,
        requires
            forall|parts: (StateMachine<NoPhase>, P::StateMachineExtra, Vec<State<P>>)|
                self.split_into(parts) ==> f.requires(parts),
        ensures
            exists|parts: (StateMachine<NoPhase>, P::StateMachineExtra, Vec<State<P>>)|
                self.split_into(parts) && f.ensures(parts, r),
    {
        let (machine, extra, states) = self.split();
        f(machine, extra, states)
    }

    /// This machine's states, in declaration order.
    pub fn states(&self) -> (r: &[State<P>])
        ensures
            r@ == self.data@,
    {
        self.data.as_slice()
    }
}

impl StateMachine<NoPhase> {
    /// `r` is this machine with `extra` and `states` put in.
    pub open spec fn joins_into<P: Phase>(
        self,
        extra: P::StateMachineExtra,
        states: Vec<State<P>>,
        r: StateMachine<P>,
    ) -> bool {
        &&& r.ident == self.ident
        &&& r.vis == self.vis
        &&& r.generics == self.generics
        &&& r.attrs == self.attrs
        &&& r.derive == self.derive
        &&& r.data == states
        &&& r.extra == extra
    }

    /// Joins this state machine with a phase's extra data and states.
    pub fn join<P: Phase>(self, extra: P::StateMachineExtra, states: Vec<State<P>>) -> (r:
        StateMachine<P>)
        ensures
            self.joins_into(extra, states, r),
    {
        StateMachine {
            ident: self.ident,
            vis: self.vis,
            generics: self.generics,
            data: states,
            attrs: self.attrs,
            derive: self.derive,
            extra,
        }
    }
}

impl<P: Phase> State<P> {
    /// Builds a state from its declaration. A role that no marker names is not
    /// held, and a state without transition markers has no transitions.
    pub fn from_markers(
        ident: String,
        attrs: Vec<String>,
        fields: Vec<Field>,
        markers: &Vec<Marker>,
        extra: P::StateExtra,
    ) -> (r: State<P>)
        ensures
            r.ident == ident,
            r.attrs == attrs,
            r.fields == fields,
            r.start == exists|i: int| 0 <= i < markers@.len() && markers@[i] is Start,
            r.ready == exists|i: int| 0 <= i < markers@.len() && markers@[i] is Ready,
            r.error == exists|i: int| 0 <= i < markers@.len() && markers@[i] is Error,
            r.transitions@ == transitions_of(markers@),
    {
        let mut start = false;
        let mut ready = false;
        let mut error = false;
        let mut transitions: Vec<String> = Vec::new();
        let mut i: usize = 0;
        while i < markers.len()
            invariant
                0 <= i <= markers.len(),
                start == exists|j: int| 0 <= j < i && markers@[j] is Start,
                ready == exists|j: int| 0 <= j < i && markers@[j] is Ready,
                error == exists|j: int| 0 <= j < i && markers@[j] is Error,
                transitions@ == transitions_of(markers@.subrange(0, i as int)),
            decreases markers.len() - i,
        {
            assert(markers@.subrange(0, i + 1).drop_last() =~= markers@.subrange(0, i as int));
            match &markers[i] {
                Marker::Start => start = true,
                Marker::Ready => ready = true,
                Marker::Error => error = true,
                Marker::Transitions(names) => {
                    let ghost before = transitions@;
                    let mut k: usize = 0;
                    while k < names.len()
                        invariant
                            0 <= k <= names.len(),
                            transitions@ == before + names@.subrange(0, k as int),
                        decreases names.len() - k,
                    {
                        transitions.push(names[k].clone());
                        assert(names@.subrange(0, k + 1) =~= names@.subrange(0, k as int).push(
                            names@[k as int],
                        ));
                        assert(transitions@ =~= before + names@.subrange(0, k + 1));
                        k += 1;
                    }
                    assert(names@.subrange(0, names.len() as int) =~= names@);
                },
            }
            i += 1;
        }
        assert(markers@.subrange(0, markers.len() as int) =~= markers@);
        State { ident, attrs, fields, start, ready, error, transitions, extra }
    }

    /// `parts` are this state without its extra data, and its extra data.
    pub open spec fn split_into(self, parts: (State<NoPhase>, P::StateExtra)) -> bool {
        &&& parts.0.ident == self.ident
        &&& parts.0.attrs == self.attrs
        &&& parts.0.fields == self.fields
        &&& parts.0.start == self.start
        &&& parts.0.ready == self.ready
        &&& parts.0.error == self.error
        &&& parts.0.transitions == self.transitions
        &&& parts.1 == self.extra
    }

    /// Splits this state into its parts, separating its per-phase data out.
    pub fn split(self) -> (r: (State<NoPhase>, P::StateExtra))
        ensures
            self.split_into(r),
    {
        let state = State {
            ident: self.ident,
            attrs: self.attrs,
            fields: self.fields,
            start: self.start,
            ready: self.ready,
            error: self.error,
            transitions: self.transitions,
            extra: (),
        };
        (state, self.extra)
    }

    /// Splits this state into its parts, and hands them to `f` to build a state
    /// in another phase.
    pub fn and_then<F, Q: Phase>(self, f: F) -> (r: State<Q>)
        where
            F: FnOnce(State<NoPhase>, P::StateExtra) -> State<Q>,
        requires
            forall|parts: (State<NoPhase>, P::StateExtra)|
                self.split_into(parts) ==> f.requires(parts),
        ensures
            exists|parts: (State<NoPhase>, P::StateExtra)|
                self.split_into(parts) && f.ensures(parts, r),
    {
        let (state, extra) = self.split();
        f(state, extra)
    }
}

impl State<NoPhase> {
    /// `r` is this state with `extra` put in.
    pub open spec fn joins_into<P: Phase>(self, extra: P::StateExtra, r: State<P>) -> bool {
        &&& r.ident == self.ident
        &&& r.attrs == self.attrs
        &&& r.fields == self.fields
        &&& r.start == self.start
        &&& r.ready == self.ready
        &&& r.error == self.error
        &&& r.transitions == self.transitions
        &&& r.extra == extra
    }

    /// Joins this state with a phase's extra data.
    pub fn join<P: Phase>(self, extra: P::StateExtra) -> (r: State<P>)
        ensures
            self.joins_into(extra, r),
    {
        State {
            ident: self.ident,
            attrs: self.attrs,
            fields: self.fields,
            start: self.start,
            ready: self.ready,
            error: self.error,
            transitions: self.transitions,
            extra,
        }
    }
}

/// Splitting a state machine and joining its parts back unchanged gives the
/// same state machine.
pub proof fn lemma_machine_split_join<P: Phase>(
    m: StateMachine<P>,
    parts: (StateMachine<NoPhase>, P::StateMachineExtra, Vec<State<P>>),
    r: StateMachine<P>,
)
    requires
        m.split_into(parts),
        parts.0.joins_into(parts.1, parts.2, r),
    ensures
        r == m,
{
}

/// Splitting a state and joining its parts back unchanged gives the same state.
pub proof fn lemma_state_split_join<P: Phase>(
    s: State<P>,
    parts: (State<NoPhase>, P::StateExtra),
    r: State<P>,
)
    requires
        s.split_into(parts),
        parts.0.joins_into(parts.1, r),
    ensures
        r == s,
{
}

/// When `f` joins the machine that it is handed with `extra` and `states`,
/// what `m.and_then(f)` returns is what joining the split `m` with `extra` and
/// `states` gives.
pub proof fn lemma_machine_and_then_join<P: Phase, Q: Phase, F>(
    m: StateMachine<P>,
    f: F,
    extra: Q::StateMachineExtra,
    states: Vec<State<Q>>,
    r: StateMachine<Q>,
)
    where
        F: FnOnce(StateMachine<NoPhase>, P::StateMachineExtra, Vec<State<P>>) -> StateMachine<Q>,
    requires
        exists|parts: (StateMachine<NoPhase>, P::StateMachineExtra, Vec<State<P>>)|
            m.split_into(parts) && f.ensures(parts, r),
        forall|
            parts: (StateMachine<NoPhase>, P::StateMachineExtra, Vec<State<P>>),
            out: StateMachine<Q>,
        | #[trigger] f.ensures(parts, out) ==> parts.0.joins_into(extra, states, out),
    ensures
        forall|parts: (StateMachine<NoPhase>, P::StateMachineExtra, Vec<State<P>>)|
            #[trigger] m.split_into(parts) ==> parts.0.joins_into(extra, states, r),
{
    let w = choose|parts: (StateMachine<NoPhase>, P::StateMachineExtra, Vec<State<P>>)|
        m.split_into(parts) && f.ensures(parts, r);
    assert(w.0.joins_into(extra, states, r));
}

/// When `f` joins the state that it is handed with `extra`, what
/// `s.and_then(f)` returns is what joining the split `s` with `extra` gives.
pub proof fn lemma_state_and_then_join<P: Phase, Q: Phase, F>(
    s: State<P>,
    f: F,
    extra: Q::StateExtra,
    r: State<Q>,
)
    where
        F: FnOnce(State<NoPhase>, P::StateExtra) -> State<Q>,
    requires
        exists|parts: (State<NoPhase>, P::StateExtra)| s.split_into(parts) && f.ensures(parts, r),
        forall|parts: (State<NoPhase>, P::StateExtra), out: State<Q>| #[trigger]
            f.ensures(parts, out) ==> parts.0.joins_into(extra, out),
    ensures
        forall|parts: (State<NoPhase>, P::StateExtra)| #[trigger]
            s.split_into(parts) ==> parts.0.joins_into(extra, r),
{
    let w = choose|parts: (State<NoPhase>, P::StateExtra)| s.split_into(parts) && f.ensures(parts, r);
    assert(w.0.joins_into(extra, r));
}

} // verus!
