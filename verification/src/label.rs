//! The aggregate connection label: what it is, how it is spelled, and how it
//! is derived from the connection states of all destinations.

use crate::status::{ConnectionState, DestinationState, FundingState, RunMode, StatusResponse};
use crate::text::same_text;
use vstd::prelude::*;

verus! {

/// One status for all destinations taken together.
#[derive(Clone, Copy, Debug, PartialEq, Eq, Structural)]
pub enum ConnectionLabel {
    Connected,
    Connecting,
    Disconnecting,
    Disconnected,
}

impl ConnectionLabel {
    /// A connection is being set up or torn down.
    pub open spec fn is_transitional(self) -> bool {
        self == ConnectionLabel::Connecting || self == ConnectionLabel::Disconnecting
    }

    /// Whether the application icon blinks under this label.
    pub fn animates(self) -> (animated: bool)
        ensures
            animated == self.is_transitional(),
    {
        match self {
            ConnectionLabel::Connecting | ConnectionLabel::Disconnecting => true,
            ConnectionLabel::Connected | ConnectionLabel::Disconnected => false,
        }
    }

    /// The characters of the label's name.
    pub open spec fn name_view(self) -> Seq<char> {
        match self {
            ConnectionLabel::Connected => "Connected"@,
            ConnectionLabel::Connecting => "Connecting"@,
            ConnectionLabel::Disconnecting => "Disconnecting"@,
            ConnectionLabel::Disconnected => "Disconnected"@,
        }
    }

    /// The label's name.
    pub fn name(self) -> (name: &'static str)
        ensures
            name@ == self.name_view(),
    {
        match self {
            ConnectionLabel::Connected => "Connected",
            ConnectionLabel::Connecting => "Connecting",
            ConnectionLabel::Disconnecting => "Disconnecting",
            ConnectionLabel::Disconnected => "Disconnected",
        }
    }

    /// The label that a name stands for. Every text that is not the name of
    /// another label stands for `Disconnected`.
    pub open spec fn of_name(name: Seq<char>) -> ConnectionLabel {
        if name == "Connected"@ {
            ConnectionLabel::Connected
        } else if name == "Connecting"@ {
            ConnectionLabel::Connecting
        } else if name == "Disconnecting"@ {
            ConnectionLabel::Disconnecting
        } else {
            ConnectionLabel::Disconnected
        }
    }

    /// Reads a label from its name.
    pub fn from_name(name: &str) -> (label: ConnectionLabel)
        ensures
            label == Self::of_name(name@),
    {
        if same_text(name, "Connected") {
            ConnectionLabel::Connected
        } else if same_text(name, "Connecting") {
            ConnectionLabel::Connecting
        } else if same_text(name, "Disconnecting") {
            ConnectionLabel::Disconnecting
        } else {
            ConnectionLabel::Disconnected
        }
    }
}

/// A label is read back from its own name.
pub proof fn lemma_name_round_trip(label: ConnectionLabel)
    ensures
        ConnectionLabel::of_name(label.name_view()) == label,
{
    reveal_strlit("Connected");
    reveal_strlit("Connecting");
    reveal_strlit("Disconnecting");
    reveal_strlit("Disconnected");
    assert("Connected"@.len() == 9);
    assert("Connecting"@.len() == 10);
    assert("Disconnecting"@.len() == 13);
    assert("Disconnected"@.len() == 12);
}

impl ConnectionState {
    /// The label of one destination taken alone.
    pub open spec fn label_view(&self) -> ConnectionLabel {
        match self {
            ConnectionState::NoConnection => ConnectionLabel::Disconnected,
            ConnectionState::Connecting(_, _) => ConnectionLabel::Connecting,
            ConnectionState::Connected(_) => ConnectionLabel::Connected,
            ConnectionState::Disconnecting(_, _) => ConnectionLabel::Disconnecting,
        }
    }

    /// The label of one destination taken alone.
    pub fn label(&self) -> (label: ConnectionLabel)
        ensures
            label == self.label_view(),
    {
        match self {
            ConnectionState::NoConnection => ConnectionLabel::Disconnected,
            ConnectionState::Connecting(_, _) => ConnectionLabel::Connecting,
            ConnectionState::Connected(_) => ConnectionLabel::Connected,
            ConnectionState::Disconnecting(_, _) => ConnectionLabel::Disconnecting,
        }
    }
}

/// The labels of the destinations one by one, in the order of the snapshot.
pub open spec fn destination_labels(destinations: Seq<DestinationState>) -> Seq<ConnectionLabel> {
    Seq::new(destinations.len(), |i: int| destinations[i].connection_state.label_view())
}

/// Index `i` holds a transitional label and no index before it does.
pub open spec fn is_first_transitional(labels: Seq<ConnectionLabel>, i: int) -> bool {
    &&& 0 <= i < labels.len()
    &&& labels[i].is_transitional()
    &&& forall|j: int| 0 <= j < i ==> !(#[trigger] labels[j]).is_transitional()
}

/// The label for all destinations together: `Connected` if any destination
/// is connected; else the label of the first destination in transition;
/// else `Disconnected`.
pub open spec fn aggregate_label(labels: Seq<ConnectionLabel>) -> ConnectionLabel {
    if labels.contains(ConnectionLabel::Connected) {
        ConnectionLabel::Connected
    } else if exists|i: int| is_first_transitional(labels, i) {
        labels[choose|i: int| is_first_transitional(labels, i)]
    } else {
        ConnectionLabel::Disconnected
    }
}

/// Derives the aggregate label in one pass that stops at the first
/// connected destination.
pub fn derive_connection_label(destinations: &Vec<DestinationState>) -> (label: ConnectionLabel)
    ensures
        label == aggregate_label(destination_labels(destinations@)),
{
    let ghost labels = destination_labels(destinations@);
    let mut result = ConnectionLabel::Disconnected;
    let mut i: usize = 0;
    while i < destinations.len()
        invariant
            i <= destinations.len(),
            labels == destination_labels(destinations@),
            forall|j: int| 0 <= j < i ==> (#[trigger] labels[j]) != ConnectionLabel::Connected,
            result != ConnectionLabel::Connected,
            result == ConnectionLabel::Disconnected ==> forall|j: int|
                0 <= j < i ==> !(#[trigger] labels[j]).is_transitional(),
            result != ConnectionLabel::Disconnected ==> exists|k: int|
                k < i && is_first_transitional(labels, k) && labels[k] == result,
        decreases destinations.len() - i,
    {
        let own = destinations[i].connection_state.label();
        assert(own == labels[i as int]);
        match own {
            ConnectionLabel::Connected => {
                assert(labels.contains(ConnectionLabel::Connected));
                return ConnectionLabel::Connected;
            },
            ConnectionLabel::Connecting | ConnectionLabel::Disconnecting => {
                if result == ConnectionLabel::Disconnected {
                    result = own;
                    assert(is_first_transitional(labels, i as int));
                }
            },
            ConnectionLabel::Disconnected => {},
        }
        i += 1;
    }
    proof {
        if result != ConnectionLabel::Disconnected {
            let k = choose|k: int| is_first_transitional(labels, k) && labels[k] == result;
            lemma_first_transitional_unique(labels, k, choose|i: int| is_first_transitional(labels, i));
        }
    }
    result
}

/// At most one index is the first transitional one.
pub proof fn lemma_first_transitional_unique(labels: Seq<ConnectionLabel>, i: int, k: int)
    requires
        is_first_transitional(labels, i),
        is_first_transitional(labels, k),
    ensures
        i == k,
{
    if i < k {
        assert(!labels[i].is_transitional());
    }
    if k < i {
        assert(!labels[k].is_transitional());
    }
}

/// Whether the run mode reports a funding issue that calls for the
/// low-funds overlay: only in normal operation, and only for the top issue.
pub open spec fn low_funds_in(run_mode: RunMode) -> bool {
    run_mode matches RunMode::Running { funding: FundingState::TopIssue(issue) }
        && issue.is_low_funds()
}

/// Whether the run mode calls for the low-funds overlay.
pub fn has_low_funds(run_mode: &RunMode) -> (low: bool)
    ensures
        low == low_funds_in(*run_mode),
{
    match run_mode {
        RunMode::Running { funding: FundingState::TopIssue(issue) } => issue.triggers_low_funds(),
        _ => false,
    }
}

/// Reduces a status snapshot to the aggregate label and the low-funds flag.
pub fn derive_status(status: &StatusResponse) -> (derived: (ConnectionLabel, bool))
    ensures
        derived.0 == aggregate_label(destination_labels(status.destinations@)),
        derived.1 == low_funds_in(status.run_mode),
{
    (derive_connection_label(&status.destinations), has_low_funds(&status.run_mode))
}

/// One connected destination makes the aggregate `Connected`, whatever the
/// other destinations are doing and wherever it stands.
pub proof fn lemma_connected_dominates(labels: Seq<ConnectionLabel>, i: int)
    requires
        0 <= i < labels.len(),
        labels[i] == ConnectionLabel::Connected,
    ensures
        aggregate_label(labels) == ConnectionLabel::Connected,
{
}

/// Some index is the first transitional one exactly if a transitional
/// label occurs at all.
proof fn lemma_first_transitional_exists(labels: Seq<ConnectionLabel>)
    ensures
        (exists|i: int| is_first_transitional(labels, i)) <==> (labels.contains(
            ConnectionLabel::Connecting,
        ) || labels.contains(ConnectionLabel::Disconnecting)),
{
    if labels.contains(ConnectionLabel::Connecting) || labels.contains(
        ConnectionLabel::Disconnecting,
    ) {
        let i = choose|i: int| 0 <= i < labels.len() && labels[i].is_transitional();
        lemma_first_transitional_before(labels, i);
    }
    if exists|i: int| is_first_transitional(labels, i) {
        let i = choose|i: int| is_first_transitional(labels, i);
        assert(labels.contains(labels[i]));
    }
}

/// A transitional label at `i` has a first transitional label at or before it.
proof fn lemma_first_transitional_before(labels: Seq<ConnectionLabel>, i: int)
    requires
        0 <= i < labels.len(),
        labels[i].is_transitional(),
    ensures
        exists|k: int| is_first_transitional(labels, k),
    decreases i,
{
    if exists|j: int| 0 <= j < i && labels[j].is_transitional() {
        let j = choose|j: int| 0 <= j < i && labels[j].is_transitional();
        lemma_first_transitional_before(labels, j);
    } else {
        assert(is_first_transitional(labels, i));
    }
}

/// Two labels are of one kind if they are equal or both transitional.
pub open spec fn same_kind(a: ConnectionLabel, b: ConnectionLabel) -> bool {
    a == b || (a.is_transitional() && b.is_transitional())
}

/// Reordering the destinations keeps the kind of the aggregate: it stays
/// `Connected`, stays transitional, or stays `Disconnected`. Which of the
/// two transitional labels comes out may depend on the order.
pub proof fn lemma_order_keeps_the_kind(a: Seq<ConnectionLabel>, b: Seq<ConnectionLabel>)
    requires
        a.to_multiset() == b.to_multiset(),
    ensures
        same_kind(aggregate_label(a), aggregate_label(b)),
{
    a.to_multiset_ensures();
    b.to_multiset_ensures();
    assert forall|label: ConnectionLabel| a.contains(label) <==> b.contains(label) by {
        assert(a.contains(label) <==> a.to_multiset().count(label) > 0);
        assert(b.contains(label) <==> b.to_multiset().count(label) > 0);
    }
    lemma_first_transitional_exists(a);
    lemma_first_transitional_exists(b);
    if !a.contains(ConnectionLabel::Connected) && exists|i: int| is_first_transitional(a, i) {
        let i = choose|i: int| is_first_transitional(a, i);
        let k = choose|k: int| is_first_transitional(b, k);
        assert(a[i].is_transitional() && b[k].is_transitional());
    }
}

/// With no destination connected, the first destination in transition
/// gives the aggregate its label.
pub proof fn lemma_first_transitional_wins(labels: Seq<ConnectionLabel>, i: int)
    requires
        !labels.contains(ConnectionLabel::Connected),
        is_first_transitional(labels, i),
    ensures
        aggregate_label(labels) == labels[i],
        aggregate_label(labels).is_transitional(),
{
    lemma_first_transitional_unique(labels, i, choose|k: int| is_first_transitional(labels, k));
}

/// With no destination connected or in transition, the aggregate is
/// `Disconnected`. The empty snapshot is one such.
pub proof fn lemma_all_idle_is_disconnected(labels: Seq<ConnectionLabel>)
    requires
        forall|i: int| 0 <= i < labels.len() ==> labels[i] == ConnectionLabel::Disconnected,
    ensures
        aggregate_label(labels) == ConnectionLabel::Disconnected,
{
}

} // verus!
