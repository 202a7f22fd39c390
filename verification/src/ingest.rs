use vstd::prelude::*;

use crate::text::string_views;

verus! {

/// Seconds the ingestor waits after each cycle, whether it succeeded or failed.
pub const INGEST_POLL_SECONDS: u64 = 60;

/// Where the ingestor stands in its cycle.
#[derive(Debug, Clone, Copy, PartialEq, Eq, Structural)]
pub enum IngestPhase {
    /// Not started.
    Idle,
    /// Connecting to the news server.
    Connecting,
    /// Selecting the group at this index.
    Selecting(usize),
    /// Closing the connection.
    Quitting,
    /// Waiting for the next cycle.
    Sleeping,
}

/// What the ingestor does next.
#[derive(Debug)]
pub enum IngestAction {
    /// Connect to this server on this port.
    Connect { server: String, port: u16 },
    /// Select this group and read its article numbers.
    SelectGroup(String),
    /// Close the connection.
    Quit,
    /// Wait this many seconds.
    Sleep(u64),
}

/// The mathematical form of an `IngestAction`.
pub enum IngestActionView {
    Connect { server: Seq<char>, port: u16 },
    SelectGroup(Seq<char>),
    Quit,
    Sleep(u64),
}

impl View for IngestAction {
    type V = IngestActionView;

    open spec fn view(&self) -> IngestActionView {
        match self {
            IngestAction::Connect { server, port } => IngestActionView::Connect {
                server: server@,
                port: *port,
            },
            IngestAction::SelectGroup(g) => IngestActionView::SelectGroup(g@),
            IngestAction::Quit => IngestActionView::Quit,
            IngestAction::Sleep(s) => IngestActionView::Sleep(*s),
        }
    }
}

/// The next phase and action of an ingestor with these settings, given whether the last
/// action succeeded: a cycle connects, selects each group in turn and quits; any failure
/// ends the cycle; every cycle is followed by a pause, and every pause by a new cycle.
pub open spec fn ingest_next(
    server: Seq<char>,
    port: u16,
    groups: Seq<Seq<char>>,
    phase: IngestPhase,
    succeeded: bool,
) -> (IngestPhase, IngestActionView) {
    match phase {
        IngestPhase::Idle => (
            IngestPhase::Connecting,
            IngestActionView::Connect { server, port },
        ),
        IngestPhase::Sleeping => (
            IngestPhase::Connecting,
            IngestActionView::Connect { server, port },
        ),
        IngestPhase::Connecting => if !succeeded {
            (IngestPhase::Sleeping, IngestActionView::Sleep(INGEST_POLL_SECONDS))
        } else if groups.len() > 0 {
            (IngestPhase::Selecting(0), IngestActionView::SelectGroup(groups[0]))
        } else {
            (IngestPhase::Quitting, IngestActionView::Quit)
        },
        IngestPhase::Selecting(i) => if !succeeded {
            (IngestPhase::Sleeping, IngestActionView::Sleep(INGEST_POLL_SECONDS))
        } else if i + 1 < groups.len() {
            (
                IngestPhase::Selecting((i + 1) as usize),
                IngestActionView::SelectGroup(groups[i + 1]),
            )
        } else {
            (IngestPhase::Quitting, IngestActionView::Quit)
        },
        IngestPhase::Quitting => (
            IngestPhase::Sleeping,
            IngestActionView::Sleep(INGEST_POLL_SECONDS),
        ),
    }
}

/// Whether a phase is one an ingestor with this many groups can be in.
pub open spec fn ingest_phase_valid(phase: IngestPhase, group_count: nat) -> bool {
    match phase {
        IngestPhase::Selecting(i) => i < group_count,
        _ => true,
    }
}

/// The polling of a news server: the groups to watch and where the cycle stands.
pub struct IngestCycle {
    server: String,
    port: u16,
    groups: Vec<String>,
    phase: IngestPhase,
}

impl IngestCycle {
    /// The news server.
    pub closed spec fn spec_server(&self) -> Seq<char> {
        self.server@
    }

    /// The port of the news server.
    pub closed spec fn spec_port(&self) -> u16 {
        self.port
    }

    /// The groups watched, in order.
    pub closed spec fn spec_groups(&self) -> Seq<Seq<char>> {
        string_views(self.groups@)
    }

    /// Where the cycle stands.
    pub closed spec fn spec_phase(&self) -> IngestPhase {
        self.phase
    }

    /// The cycle stands at a group that exists.
    pub closed spec fn wf(&self) -> bool {
        ingest_phase_valid(self.phase, self.groups@.len())
    }

    /// An ingestor for these groups of this server, not yet started.
    pub fn new(server: String, port: u16, groups: Vec<String>) -> (cycle: IngestCycle)
        ensures
            cycle.wf(),
            cycle.spec_server() == server@,
            cycle.spec_port() == port,
            cycle.spec_groups() == string_views(groups@),
            cycle.spec_phase() == IngestPhase::Idle,
    {
        IngestCycle { server, port, groups, phase: IngestPhase::Idle }
    }

    /// Where the cycle stands.
    pub fn phase(&self) -> (phase: IngestPhase)
        ensures
            phase == self.spec_phase(),
    {
        self.phase
    }

    /// Takes whether the last action succeeded (ignored when nothing ran yet, or after a
    /// pause) and gives the next action.
    pub fn step(&mut self, succeeded: bool) -> (action: IngestAction)
        requires
            old(self).wf(),
        ensures
            final(self).wf(),
            final(self).spec_server() == old(self).spec_server(),
            final(self).spec_port() == old(self).spec_port(),
            final(self).spec_groups() == old(self).spec_groups(),
            (final(self).spec_phase(), action@) == ingest_next(
                old(self).spec_server(),
                old(self).spec_port(),
                old(self).spec_groups(),
                old(self).spec_phase(),
                succeeded,
            ),
    {
        let ghost groups = string_views(self.groups@);
        assert(groups.len() == self.groups@.len());
        match self.phase {
            IngestPhase::Idle | IngestPhase::Sleeping => {
                self.phase = IngestPhase::Connecting;
                IngestAction::Connect { server: self.server.clone(), port: self.port }
            },
            IngestPhase::Connecting => {
                if !succeeded {
                    self.phase = IngestPhase::Sleeping;
                    IngestAction::Sleep(INGEST_POLL_SECONDS)
                } else if self.groups.len() > 0 {
                    self.phase = IngestPhase::Selecting(0);
                    assert(groups[0] == self.groups@[0]@);
                    IngestAction::SelectGroup(self.groups[0].clone())
                } else {
                    self.phase = IngestPhase::Quitting;
                    IngestAction::Quit
                }
            },
            IngestPhase::Selecting(i) => {
                let n: usize = self.groups.len();
                assert(i < n);
                if !succeeded {
                    self.phase = IngestPhase::Sleeping;
                    IngestAction::Sleep(INGEST_POLL_SECONDS)
                } else if i + 1 < n {
                    self.phase = IngestPhase::Selecting(i + 1);
                    assert(groups[i + 1] == self.groups@[i + 1]@);
                    IngestAction::SelectGroup(self.groups[i + 1].clone())
                } else {
                    self.phase = IngestPhase::Quitting;
                    IngestAction::Quit
                }
            },
            IngestPhase::Quitting => {
                self.phase = IngestPhase::Sleeping;
                IngestAction::Sleep(INGEST_POLL_SECONDS)
            },
        }
    }
}

} // verus!

verus! {

/// The actions of `steps` steps of an ingestor whose actions all succeed, from `phase`.
pub open spec fn successful_actions(
    server: Seq<char>,
    port: u16,
    groups: Seq<Seq<char>>,
    phase: IngestPhase,
    steps: nat,
) -> Seq<IngestActionView>
    decreases steps,
{
    if steps == 0 {
        Seq::empty()
    } else {
        let (next, action) = ingest_next(server, port, groups, phase, true);
        seq![action] + successful_actions(server, port, groups, next, (steps - 1) as nat)
    }
}

/// The actions of a cycle in which every action succeeds, after the connection: each group
/// selected once, in order, then the connection closed and the pause.
pub open spec fn cycle_after_connect(groups: Seq<Seq<char>>) -> Seq<IngestActionView> {
    groups.map_values(|g: Seq<char>| IngestActionView::SelectGroup(g)) + seq![
        IngestActionView::Quit,
        IngestActionView::Sleep(INGEST_POLL_SECONDS),
    ]
}

proof fn lemma_selecting_rest(
    server: Seq<char>,
    port: u16,
    groups: Seq<Seq<char>>,
    i: usize,
)
    requires
        i < groups.len() <= usize::MAX,
    ensures
        successful_actions(server, port, groups, IngestPhase::Selecting(i), (groups.len() - i + 1) as nat)
            == cycle_after_connect(groups.subrange(i + 1, groups.len() as int)),
    decreases groups.len() - i,
{
    let n = groups.len();
    let rest = groups.subrange(i + 1, n as int);
    reveal_with_fuel(successful_actions, 3);
    if i + 1 == n {
        assert(rest.map_values(|g: Seq<char>| IngestActionView::SelectGroup(g)) =~= Seq::empty());
        assert(successful_actions(server, port, groups, IngestPhase::Selecting(i), 2) =~= seq![
            IngestActionView::Quit,
            IngestActionView::Sleep(INGEST_POLL_SECONDS),
        ]);
        assert(cycle_after_connect(rest) =~= seq![
            IngestActionView::Quit,
            IngestActionView::Sleep(INGEST_POLL_SECONDS),
        ]);
    } else {
        lemma_selecting_rest(server, port, groups, (i + 1) as usize);
        let later = groups.subrange(i + 2, n as int);
        assert(rest.drop_first() =~= later);
        assert(cycle_after_connect(rest) =~= seq![IngestActionView::SelectGroup(groups[i + 1])]
            + cycle_after_connect(later));
    }
}

/// A cycle in which every action succeeds connects, selects each configured group once and
/// in order, closes the connection and pauses for the poll interval.
pub proof fn successful_cycle_visits_every_group_in_order(
    server: Seq<char>,
    port: u16,
    groups: Seq<Seq<char>>,
)
    requires
        groups.len() <= usize::MAX,
    ensures
        successful_actions(server, port, groups, IngestPhase::Sleeping, groups.len() + 3) == seq![
            IngestActionView::Connect { server, port },
        ] + cycle_after_connect(groups),
{
    let n = groups.len();
    reveal_with_fuel(successful_actions, 4);
    if n == 0 {
        assert(groups.map_values(|g: Seq<char>| IngestActionView::SelectGroup(g)) =~= Seq::empty());
        assert(successful_actions(server, port, groups, IngestPhase::Sleeping, 3) =~= seq![
            IngestActionView::Connect { server, port },
        ] + cycle_after_connect(groups));
    } else {
        lemma_selecting_rest(server, port, groups, 0);
        assert(groups.subrange(1, n as int) =~= groups.drop_first());
        assert(cycle_after_connect(groups) =~= seq![IngestActionView::SelectGroup(groups[0])]
            + cycle_after_connect(groups.subrange(1, n as int)));
        assert(successful_actions(server, port, groups, IngestPhase::Connecting, n + 2)
            == seq![IngestActionView::SelectGroup(groups[0])] + successful_actions(
                server,
                port,
                groups,
                IngestPhase::Selecting(0),
                n + 1,
            ));
        assert(successful_actions(server, port, groups, IngestPhase::Sleeping, n + 3)
            == seq![IngestActionView::Connect { server, port }] + successful_actions(
                server,
                port,
                groups,
                IngestPhase::Connecting,
                n + 2,
            ));
    }
}

/// A failed connection or group selection ends the cycle with the pause, and after every
/// pause the ingestor connects again: the polling never stops.
pub proof fn failure_pauses_then_reconnects(
    server: Seq<char>,
    port: u16,
    groups: Seq<Seq<char>>,
    phase: IngestPhase,
)
    requires
        phase is Connecting || phase is Selecting,
    ensures
        ingest_next(server, port, groups, phase, false) == (
            IngestPhase::Sleeping,
            IngestActionView::Sleep(INGEST_POLL_SECONDS),
        ),
        ingest_next(server, port, groups, IngestPhase::Sleeping, false) == (
            IngestPhase::Connecting,
            IngestActionView::Connect { server, port },
        ),
        ingest_next(server, port, groups, IngestPhase::Sleeping, true) == (
            IngestPhase::Connecting,
            IngestActionView::Connect { server, port },
        ),
{
}

} // verus!
