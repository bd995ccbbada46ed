use state_machine_ast::ast::{Field, Generics, Marker, State, StateMachine};
use state_machine_ast::phases::{NoPhase, Phase};
use state_machine_ast::syntax::{Path, PathArguments, PathSegment, Type};

/// A pass that counts: the machine carries a number, each state an index.
struct Counted;

impl Phase for Counted {
    type StateMachineExtra = u32;
    type StateExtra = usize;
}

fn name(ident: &str) -> Type {
    Type::Path {
        qself: None,
        path: Path {
            global: false,
            segments: vec![PathSegment { ident: ident.to_string(), arguments: PathArguments::Empty }],
        },
    }
}

fn strings(items: &[&str]) -> Vec<String> {
    items.iter().map(|s| s.to_string()).collect()
}

fn state<P: Phase>(ident: &str, markers: Vec<Marker>, extra: P::StateExtra) -> State<P> {
    State::from_markers(ident.to_string(), vec![], vec![], &markers, extra)
}

fn connect() -> StateMachine<NoPhase> {
    let states = vec![
        state::<NoPhase>("Start", vec![Marker::Start, Marker::Transitions(strings(&["Waiting"]))], ()),
        state::<NoPhase>("Waiting", vec![Marker::Transitions(strings(&["Connected", "Start"]))], ()),
        state::<NoPhase>("Connected", vec![Marker::Ready], ()),
        state::<NoPhase>("Failed", vec![Marker::Error], ()),
    ];
    StateMachine {
        ident: "Connect".to_string(),
        vis: "pub".to_string(),
        generics: Generics { params: vec![], where_clause: vec![] },
        data: states,
        attrs: strings(&["#[doc = \"Connects.\"]"]),
        derive: strings(&["Clone"]),
        extra: (),
    }
}

fn idents_of<P: Phase>(states: &[State<P>]) -> Vec<String> {
    states.iter().map(|s| s.ident.clone()).collect()
}

#[test]
fn connect_states_in_order_with_one_of_each_role() {
    let machine = connect();
    let states = machine.states();
    assert_eq!(idents_of(states), strings(&["Start", "Waiting", "Connected", "Failed"]));
    assert_eq!(states.iter().filter(|s| s.start).count(), 1);
    assert_eq!(states.iter().filter(|s| s.ready).count(), 1);
    assert_eq!(states.iter().filter(|s| s.error).count(), 1);
    assert!(states[0].start);
    assert!(states[2].ready);
    assert!(states[3].error);
    assert_eq!(states[0].transitions, strings(&["Waiting"]));
    assert_eq!(states[1].transitions, strings(&["Connected", "Start"]));
    assert!(states[2].transitions.is_empty());
}

#[test]
fn state_without_markers_has_no_role() {
    let s: State<NoPhase> = State::from_markers(
        "Idle".to_string(),
        strings(&["#[allow(dead_code)]"]),
        vec![Field { ident: Some("count".to_string()), ty: name("u32") }],
        &vec![],
        (),
    );
    assert!(!s.start);
    assert!(!s.ready);
    assert!(!s.error);
    assert!(s.transitions.is_empty());
    assert_eq!(s.ident, "Idle");
    assert_eq!(s.attrs, strings(&["#[allow(dead_code)]"]));
    assert_eq!(s.fields.len(), 1);
    assert_eq!(s.fields[0].ident, Some("count".to_string()));
}

#[test]
fn transition_markers_are_joined_in_order() {
    let s: State<NoPhase> = state(
        "Busy",
        vec![
            Marker::Transitions(strings(&["A"])),
            Marker::Ready,
            Marker::Transitions(strings(&["B", "C"])),
        ],
        (),
    );
    assert_eq!(s.transitions, strings(&["A", "B", "C"]));
    assert!(s.ready);
    assert!(!s.start);
}

#[test]
fn machine_split_then_join_gives_it_back() {
    let machine = connect();
    let (skeleton, extra, states) = machine.split();
    assert!(skeleton.data.is_empty());
    assert_eq!(skeleton.ident, "Connect");
    let rebuilt: StateMachine<NoPhase> = skeleton.join(extra, states);
    assert_eq!(rebuilt.ident, "Connect");
    assert_eq!(rebuilt.vis, "pub");
    assert_eq!(rebuilt.attrs, strings(&["#[doc = \"Connects.\"]"]));
    assert_eq!(rebuilt.derive, strings(&["Clone"]));
    assert_eq!(idents_of(rebuilt.states()), strings(&["Start", "Waiting", "Connected", "Failed"]));
}

#[test]
fn machine_and_then_moves_to_another_phase() {
    let machine = connect();
    let counted: StateMachine<Counted> = machine.and_then(|skeleton, (), states| {
        let states: Vec<State<Counted>> = states
            .into_iter()
            .enumerate()
            .map(|(i, s)| s.and_then(|bare, ()| bare.join::<Counted>(i)))
            .collect();
        let n = states.len() as u32;
        skeleton.join(n, states)
    });
    let by_hand: StateMachine<Counted> = {
        let (skeleton, (), states) = connect().split();
        let states: Vec<State<Counted>> = states
            .into_iter()
            .enumerate()
            .map(|(i, s)| s.split().0.join::<Counted>(i))
            .collect();
        skeleton.join(4, states)
    };
    assert_eq!(counted.extra, 4);
    assert_eq!(counted.extra, by_hand.extra);
    assert_eq!(counted.ident, by_hand.ident);
    assert_eq!(counted.vis, by_hand.vis);
    assert_eq!(counted.attrs, by_hand.attrs);
    assert_eq!(counted.derive, by_hand.derive);
    assert_eq!(idents_of(counted.states()), idents_of(by_hand.states()));
    let extras: Vec<usize> = counted.states().iter().map(|s| s.extra).collect();
    assert_eq!(extras, vec![0, 1, 2, 3]);
}

#[test]
fn state_split_then_join_gives_it_back() {
    let s: State<Counted> = state("Start", vec![Marker::Start, Marker::Transitions(strings(&["Next"]))], 7);
    let (bare, extra) = s.split();
    assert_eq!(extra, 7);
    let back: State<Counted> = bare.join(extra);
    assert_eq!(back.ident, "Start");
    assert!(back.start && !back.ready && !back.error);
    assert_eq!(back.transitions, strings(&["Next"]));
    assert_eq!(back.extra, 7);
}
