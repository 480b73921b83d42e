//! A Mermaid state diagram of a transition table.

use vstd::prelude::*;

use crate::controller::state_machine::{
    transition_table, transition_views, transitions, TransitionAction, TransitionView,
};
use crate::text::{concat2, join, joined, same_text, texts};

verus! {

/// One edge of a diagram.
#[derive(Clone, Debug)]
pub struct Edge {
    pub from: String,
    pub to: String,
    pub guard: String,
    pub actions: Vec<String>,
}

/// The view of an edge.
pub struct EdgeView {
    pub from: Seq<char>,
    pub to: Seq<char>,
    pub guard: Seq<char>,
    pub actions: Seq<Seq<char>>,
}

impl View for Edge {
    type V = EdgeView;

    open spec fn view(&self) -> EdgeView {
        EdgeView {
            from: self.from@,
            to: self.to@,
            guard: self.guard@,
            actions: texts(self.actions@),
        }
    }
}

/// The views of a list of edges.
pub open spec fn edge_views(v: Seq<Edge>) -> Seq<EdgeView> {
    v.map_values(|e: Edge| e@)
}

/// The condition of an edge in brackets, or nothing.
pub open spec fn guard_part(guard: Seq<char>) -> Seq<char> {
    if guard.len() == 0 {
        Seq::empty()
    } else {
        "["@ + guard + "]"@
    }
}

/// The actions of an edge after a slash, or nothing.
pub open spec fn action_part(actions: Seq<Seq<char>>) -> Seq<char> {
    if actions.len() == 0 {
        Seq::empty()
    } else {
        "/ "@ + joined(actions, ", "@)
    }
}

/// The label of an edge.
pub open spec fn edge_label(guard: Seq<char>, actions: Seq<Seq<char>>) -> Seq<char> {
    if guard.len() == 0 && actions.len() == 0 {
        Seq::empty()
    } else if actions.len() == 0 {
        " : "@ + guard_part(guard)
    } else if guard.len() == 0 {
        " : "@ + action_part(actions)
    } else {
        " : "@ + guard_part(guard) + " "@ + action_part(actions)
    }
}

/// The line of an edge.
pub open spec fn edge_line(e: EdgeView) -> Seq<char> {
    "    "@ + e.from + " --> "@ + e.to + edge_label(e.guard, e.actions) + "\n"@
}

/// The lines of a list of edges, with an empty line where a new group of edges
/// from one state begins.
pub open spec fn edge_lines(edges: Seq<EdgeView>) -> Seq<char>
    decreases edges.len(),
{
    if edges.len() == 0 {
        Seq::empty()
    } else {
        let before = edge_lines(edges.drop_last());
        let gap = if edges.len() > 1 && edges[edges.len() - 2].from.len() > 0
            && edges[edges.len() - 2].from != edges.last().from {
            "\n"@
        } else {
            Seq::empty()
        };
        before + gap + edge_line(edges.last())
    }
}

/// What comes before the edges.
pub open spec fn preamble() -> Seq<char> {
    "# OdooInstance State Machine\n\n"@
        + "Auto-generated from the `TRANSITIONS` table in `controller/state_machine.rs`.\n\n"@
        + "```mermaid\nstateDiagram-v2\n"@ + "    [*] --> Provisioning\n\n"@
}

/// The diagram of a list of edges.
pub open spec fn diagram_text(edges: Seq<EdgeView>) -> Seq<char> {
    preamble() + edge_lines(edges) + "```\n"@
}

/// The label of an edge.
fn label_of(guard: &str, actions: &Vec<String>) -> (r: String)
    ensures
        r@ == edge_label(guard@, texts(actions@)),
{
    if guard.is_empty() && actions.len() == 0 {
        return String::new();
    }
    let mut out = " : ".to_owned();
    if !guard.is_empty() {
        out.append("[");
        out.append(guard);
        out.append("]");
        assert(out@ =~= " : "@ + guard_part(guard@));
    }
    if actions.len() > 0 {
        let names = join(actions, ", ");
        if !guard.is_empty() {
            out.append(" ");
        }
        let part = concat2("/ ", names.as_str());
        assert(part@ =~= action_part(texts(actions@)));
        out.append(part.as_str());
    }
    assert(out@ =~= edge_label(guard@, texts(actions@)));
    out
}

/// Draws the diagram of a list of edges.
#[verifier::rlimit(60)]
#[verifier::spinoff_prover]
pub fn render(edges: &Vec<Edge>) -> (r: String)
    ensures
        r@ == diagram_text(edge_views(edges@)),
{
    let mut out = "# OdooInstance State Machine\n\n".to_owned();
    out.append("Auto-generated from the `TRANSITIONS` table in `controller/state_machine.rs`.\n\n");
    out.append("```mermaid\nstateDiagram-v2\n");
    out.append("    [*] --> Provisioning\n\n");
    let ghost all = edge_views(edges@);
    let mut i: usize = 0;
    assert(all.take(0) =~= Seq::empty());
    assert(out@ =~= preamble() + edge_lines(all.take(0)));
    while i < edges.len()
        invariant
            i <= edges.len(),
            all == edge_views(edges@),
            out@ == preamble() + edge_lines(all.take(i as int)),
        decreases edges.len() - i,
    {
        let e = &edges[i];
        let ghost shown = all.take(i + 1);
        let ghost so_far = out@;
        proof {
            assert(shown.drop_last() =~= all.take(i as int));
            assert(shown.last() == e@);
            assert(i > 0 ==> shown[i - 1] == edges@[i - 1]@);
        }
        if i > 0 && !edges[i - 1].from.as_str().is_empty() && !same_text(
            edges[i - 1].from.as_str(),
            e.from.as_str(),
        ) {
            out.append("\n");
        } else {
            assert(so_far =~= so_far + Seq::<char>::empty());
        }
        let ghost gapped = out@;
        out.append("    ");
        out.append(e.from.as_str());
        out.append(" --> ");
        out.append(e.to.as_str());
        out.append(label_of(e.guard.as_str(), &e.actions).as_str());
        out.append("\n");
        proof {
            assert(out@ =~= gapped + edge_line(e@));
            assert(out@ =~= preamble() + edge_lines(shown));
        }
        i += 1;
    }
    assert(all.take(i as int) =~= all);
    out.append("```\n");
    out
}

/// The name of an action in diagrams.
pub open spec fn action_text(a: TransitionAction) -> Seq<char> {
    match a {
        TransitionAction::MarkDbInitialized => "MarkDbInitialized"@,
        TransitionAction::CompleteInitJob => "CompleteInitJob"@,
        TransitionAction::FailInitJob => "FailInitJob"@,
        TransitionAction::CompleteRestoreJob => "CompleteRestoreJob"@,
        TransitionAction::FailRestoreJob => "FailRestoreJob"@,
        TransitionAction::CompleteUpgradeJob => "CompleteUpgradeJob"@,
        TransitionAction::FailUpgradeJob => "FailUpgradeJob"@,
        TransitionAction::CompleteBackupJob => "CompleteBackupJob"@,
        TransitionAction::FailBackupJob => "FailBackupJob"@,
        TransitionAction::BeginFilestoreMigration => "BeginFilestoreMigration"@,
        TransitionAction::CompleteFilestoreMigration => "CompleteFilestoreMigration"@,
        TransitionAction::RollbackFilestoreMigration => "RollbackFilestoreMigration"@,
    }
}

/// The name of an action in diagrams.
pub fn action_name(a: &TransitionAction) -> (r: &'static str)
    ensures
        r@ == action_text(*a),
{
    match a {
        TransitionAction::MarkDbInitialized => "MarkDbInitialized",
        TransitionAction::CompleteInitJob => "CompleteInitJob",
        TransitionAction::FailInitJob => "FailInitJob",
        TransitionAction::CompleteRestoreJob => "CompleteRestoreJob",
        TransitionAction::FailRestoreJob => "FailRestoreJob",
        TransitionAction::CompleteUpgradeJob => "CompleteUpgradeJob",
        TransitionAction::FailUpgradeJob => "FailUpgradeJob",
        TransitionAction::CompleteBackupJob => "CompleteBackupJob",
        TransitionAction::FailBackupJob => "FailBackupJob",
        TransitionAction::BeginFilestoreMigration => "BeginFilestoreMigration",
        TransitionAction::CompleteFilestoreMigration => "CompleteFilestoreMigration",
        TransitionAction::RollbackFilestoreMigration => "RollbackFilestoreMigration",
    }
}

/// The edge of a transition.
pub open spec fn edge_of(t: TransitionView) -> EdgeView {
    EdgeView {
        from: t.from.text(),
        to: t.to.text(),
        guard: t.guard.text(),
        actions: t.actions.map_values(|a: TransitionAction| action_text(a)),
    }
}

/// The edges of the transition table.
pub open spec fn table_edges() -> Seq<EdgeView> {
    transition_table().map_values(|t: TransitionView| edge_of(t))
}

/// The names of some actions.
fn action_names(actions: &Vec<TransitionAction>) -> (r: Vec<String>)
    ensures
        texts(r@) == actions@.map_values(|a: TransitionAction| action_text(a)),
{
    let mut out: Vec<String> = Vec::new();
    let mut i: usize = 0;
    while i < actions.len()
        invariant
            i <= actions.len(),
            out.len() == i,
            forall|j: int| 0 <= j < i ==> (#[trigger] out@[j])@ == action_text(actions@[j]),
        decreases actions.len() - i,
    {
        out.push(action_name(&actions[i]).to_owned());
        i += 1;
    }
    assert(texts(out@) =~= actions@.map_values(|a: TransitionAction| action_text(a)));
    out
}

/// Draws the transition table of the state machine.
pub fn generate() -> (r: String)
    ensures
        r@ == diagram_text(table_edges()),
{
    let rows = transitions();
    let mut edges: Vec<Edge> = Vec::new();
    let mut i: usize = 0;
    while i < rows.len()
        invariant
            i <= rows.len(),
            transition_views(rows@) == transition_table(),
            edges.len() == i,
            forall|j: int| 0 <= j < i ==> (#[trigger] edges@[j])@ == edge_of(rows@[j]@),
        decreases rows.len() - i,
    {
        let t = &rows[i];
        let e = Edge {
            from: t.from.as_str().to_owned(),
            to: t.to.as_str().to_owned(),
            guard: t.guard_name().to_owned(),
            actions: action_names(&t.actions),
        };
        assert(e@ == edge_of(t@));
        edges.push(e);
        i += 1;
    }
    proof {
        let want = table_edges();
        assert(transition_views(rows@).len() == rows@.len());
        assert forall|j: int| 0 <= j < rows@.len() implies edge_views(edges@)[j] == want[j] by {
            assert(edge_views(edges@)[j] == edges@[j]@);
            assert(transition_views(rows@)[j] == rows@[j]@);
        }
        assert(edge_views(edges@) =~= want);
    }
    render(&edges)
}

/// Every edge is drawn: the diagram holds its line, with both states, the condition in
/// brackets where there is one, and the actions after a slash where there are some.
pub proof fn law_every_edge_is_drawn(edges: &Vec<Edge>, r: String, i: int)
    requires
        call_ensures(render, (edges,), r),
        0 <= i < edges@.len(),
    ensures
        ({
            let e = edges@[i];
            let line = "    "@ + e.from@ + " --> "@ + e.to@;
            let acts = joined(texts(e.actions@), ", "@);
            exists|a: Seq<char>, b: Seq<char>|
                {
                    &&& r@ == #[trigger] (a + line + b)
                    &&& e.guard@.len() == 0 && e.actions@.len() == 0 ==> "\n"@.is_prefix_of(b)
                    &&& e.guard@.len() > 0 && e.actions@.len() == 0 ==> (" : "@ + ("["@ + e.guard@
                        + "]"@) + "\n"@).is_prefix_of(b)
                    &&& e.guard@.len() == 0 && e.actions@.len() > 0 ==> (" : "@ + ("/ "@ + acts)
                        + "\n"@).is_prefix_of(b)
                    &&& e.guard@.len() > 0 && e.actions@.len() > 0 ==> (" : "@ + ("["@ + e.guard@
                        + "]"@) + " "@ + ("/ "@ + acts) + "\n"@).is_prefix_of(b)
                }
        }),
{
    let all = edge_views(edges@);
    let e = all[i];
    assert(e == edges@[i]@);
    assert(texts(edges@[i].actions@).len() == edges@[i].actions@.len());
    let (a, b) = lemma_line_is_there(all, i);
    let line = "    "@ + e.from + " --> "@ + e.to;
    let label = edge_label(e.guard, e.actions) + "\n"@;
    let front = preamble() + a;
    let back = label + b + "```\n"@;
    assert(edge_line(e) =~= line + label);
    assert(r@ =~= front + line + back);
    assert(label.is_prefix_of(back)) by {
        assert(back.subrange(0, label.len() as int) =~= label);
    }
    if e.guard.len() == 0 && e.actions.len() == 0 {
        assert(label =~= "\n"@);
    }
}

proof fn lemma_line_is_there(edges: Seq<EdgeView>, i: int) -> (r: (Seq<char>, Seq<char>))
    requires
        0 <= i < edges.len(),
    ensures
        edge_lines(edges) == r.0 + edge_line(edges[i]) + r.1,
    decreases edges.len(),
{
    let before = edge_lines(edges.drop_last());
    let gap = if edges.len() > 1 && edges[edges.len() - 2].from.len() > 0 && edges[edges.len()
        - 2].from != edges.last().from {
        "\n"@
    } else {
        Seq::empty()
    };
    if i == edges.len() - 1 {
        assert(edge_lines(edges) =~= before + gap + edge_line(edges[i]) + Seq::<char>::empty());
        (before + gap, Seq::empty())
    } else {
        let (a, b) = lemma_line_is_there(edges.drop_last(), i);
        assert(edges.drop_last()[i] == edges[i]);
        let rest = b + gap + edge_line(edges.last());
        assert(edge_lines(edges) =~= a + edge_line(edges[i]) + rest);
        (a, rest)
    }
}

/// Every transition is an edge of the diagram, from its phase to the next one, and the
/// diagram has no other edges.
pub proof fn law_every_transition_is_an_edge(i: int)
    requires
        0 <= i < transition_table().len(),
    ensures
        table_edges().len() == transition_table().len(),
        table_edges()[i].from == transition_table()[i].from.text(),
        table_edges()[i].to == transition_table()[i].to.text(),
        table_edges()[i].guard == transition_table()[i].guard.text(),
        table_edges()[i].actions.len() == transition_table()[i].actions.len(),
{
}

/// Actions go by their names in the diagram.
pub proof fn law_actions_go_by_their_names(a: &TransitionAction, r: &'static str)
    requires
        call_ensures(action_name, (a,), r),
    ensures
        r@ == match *a {
            TransitionAction::MarkDbInitialized => "MarkDbInitialized"@,
            TransitionAction::CompleteInitJob => "CompleteInitJob"@,
            TransitionAction::FailInitJob => "FailInitJob"@,
            TransitionAction::CompleteRestoreJob => "CompleteRestoreJob"@,
            TransitionAction::FailRestoreJob => "FailRestoreJob"@,
            TransitionAction::CompleteUpgradeJob => "CompleteUpgradeJob"@,
            TransitionAction::FailUpgradeJob => "FailUpgradeJob"@,
            TransitionAction::CompleteBackupJob => "CompleteBackupJob"@,
            TransitionAction::FailBackupJob => "FailBackupJob"@,
            TransitionAction::BeginFilestoreMigration => "BeginFilestoreMigration"@,
            TransitionAction::CompleteFilestoreMigration => "CompleteFilestoreMigration"@,
            TransitionAction::RollbackFilestoreMigration => "RollbackFilestoreMigration"@,
        },
{
}

/// The diagram is a Mermaid state diagram that starts where new instances are.
pub proof fn law_diagrams_are_framed(edges: &Vec<Edge>, r: String)
    requires
        call_ensures(render, (edges,), r),
    ensures
        exists|lines: Seq<char>|
            r@ == #[trigger] ("# OdooInstance State Machine\n\n"@
                + "Auto-generated from the `TRANSITIONS` table in `controller/state_machine.rs`.\n\n"@
                + "```mermaid\nstateDiagram-v2\n"@ + "    [*] --> Provisioning\n\n"@ + lines
                + "```\n"@),
{
    let lines = edge_lines(edge_views(edges@));
    assert(r@ == preamble() + lines + "```\n"@);
}

/// The diagram of the state machine is that of its transition table: each transition is
/// drawn from its phase to the next one.
pub proof fn law_the_table_is_drawn(r: String, i: int)
    requires
        call_ensures(generate, (), r),
        0 <= i < transition_table().len(),
    ensures
        ({
            let t = transition_table()[i];
            let line = "    "@ + t.from.text() + " --> "@ + t.to.text();
            exists|a: Seq<char>, b: Seq<char>| r@ == #[trigger] (a + line + b)
        }),
{
    let all = table_edges();
    let e = all[i];
    let (a, b) = lemma_line_is_there(all, i);
    let line = "    "@ + e.from + " --> "@ + e.to;
    let label = edge_label(e.guard, e.actions) + "\n"@;
    assert(edge_line(e) =~= line + label);
    assert(r@ =~= (preamble() + a) + line + (label + b + "```\n"@));
}

} // verus!
