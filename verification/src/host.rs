//! What the controller assumes of the host, and what then holds of a whole
//! invocation.
//!
//! The host runtime owns the window registry and serves one request at a
//! time. It is not part of this library, so nothing here runs: `Host` is the
//! registry as the controller sees it, `serve` is the host's answer to one
//! request, and `run` is an invocation from its first step to its last. The
//! laws below are proved of `run`, that is of the controller's own steps set
//! against a host that behaves as `serve` says.

use crate::controller::{
    advance_spec, begin_spec, begins_with, creation_notice, failure, lemma_rendered_mark,
    menu_event_spec, settings_item_id, Level, LogLineView, Phase, ReplyView, RequestView, StepView,
};
use crate::window::{settings_label, settings_window_view, WindowConfigView};
use vstd::prelude::*;

verus! {

/// A window in the registry: what it was created with, and whether it is on
/// screen now.
pub struct WindowState {
    pub config: WindowConfigView,
    pub visible: bool,
}

/// The host's window registry, in order of creation.
pub struct Host {
    pub windows: Seq<WindowState>,
}

/// The failures that the host meets during one invocation, each with the
/// host's description of it: `show` for the request to show a window, `create`
/// for the request to create one. An invocation makes each request at most
/// once.
pub struct Faults {
    pub show: Option<Seq<char>>,
    pub create: Option<Seq<char>>,
}

/// How an invocation ends: the registry it leaves, the requests it made of
/// the host, the lines it logged, both in order, and the phase it stopped in.
pub struct Outcome {
    pub host: Host,
    pub requests: Seq<RequestView>,
    pub log: Seq<LogLineView>,
    pub phase: Phase,
}

impl Faults {
    /// No failure at all.
    pub open spec fn none() -> Faults {
        Faults { show: None, create: None }
    }
}

impl Host {
    /// Whether the window at place `i` goes by the name `label`.
    pub open spec fn holds(self, i: int, label: Seq<char>) -> bool {
        0 <= i < self.windows.len() && self.windows[i].config.label == label
    }

    /// Whether some window goes by the name `label`.
    pub open spec fn has(self, label: Seq<char>) -> bool {
        exists|i: int| self.holds(i, label)
    }

    /// Whether exactly one window goes by the name `label`.
    pub open spec fn has_one(self, label: Seq<char>) -> bool {
        exists|i: int| self.holds(i, label) && forall|j: int| self.holds(j, label) ==> j == i
    }

    /// A window that goes by the name `label`.
    pub open spec fn window(self, label: Seq<char>) -> WindowState {
        self.windows[choose|i: int| self.holds(i, label)]
    }

    /// Whether no two windows share a name: the registry's own rule.
    pub open spec fn names_distinct(self) -> bool {
        forall|i: int, j: int|
            0 <= i < j < self.windows.len() ==> self.windows[i].config.label
                != self.windows[j].config.label
    }

    /// The registry with the windows named `label` on screen.
    pub open spec fn shown(self, label: Seq<char>) -> Host {
        Host {
            windows: Seq::new(
                self.windows.len(),
                |i: int|
                    if self.windows[i].config.label == label {
                        WindowState { visible: true, ..self.windows[i] }
                    } else {
                        self.windows[i]
                    },
            ),
        }
    }

    /// The registry with one more window, created with `config`.
    pub open spec fn created(self, config: WindowConfigView) -> Host {
        Host { windows: self.windows.push(WindowState { config, visible: config.visible }) }
    }

    /// The host's answer to one request, and the registry afterwards. A
    /// request that fails leaves the registry as it was.
    pub open spec fn serve(self, request: RequestView, faults: Faults) -> (Host, ReplyView) {
        match request {
            RequestView::Lookup(label) => (
                self,
                if self.has(label) {
                    ReplyView::Found
                } else {
                    ReplyView::Missing
                },
            ),
            RequestView::Show(label) => match faults.show {
                Some(detail) => (self, ReplyView::ShowFailed(detail)),
                None => (self.shown(label), ReplyView::Shown),
            },
            RequestView::Create(config) => match faults.create {
                Some(detail) => (self, ReplyView::CreateFailed(detail)),
                None => (self.created(config), ReplyView::Created),
            },
        }
    }
}

/// The rest of an invocation from `step` on: its line is logged, its request
/// is served, and the reply decides the next step, until a step asks for
/// nothing more.
pub open spec fn run_from(step: StepView, host: Host, faults: Faults) -> Outcome
    decreases step.phase.rank(),
{
    let logged = match step.log {
        Some(line) => seq![line],
        None => Seq::empty(),
    };
    if step.phase != Phase::Done && step.request is Some {
        let (served, reply) = host.serve(step.request->Some_0, faults);
        let rest = run_from(advance_spec(step.phase, reply), served, faults);
        Outcome {
            host: rest.host,
            requests: seq![step.request->Some_0] + rest.requests,
            log: logged + rest.log,
            phase: rest.phase,
        }
    } else {
        Outcome { host, requests: Seq::empty(), log: logged, phase: step.phase }
    }
}

/// One invocation of the controller, as the front-end's command begins it.
pub open spec fn run(host: Host, faults: Faults) -> Outcome {
    run_from(begin_spec(), host, faults)
}

/// One invocation as a click on the menu item `item_id` begins it.
pub open spec fn run_menu_event(item_id: Seq<char>, host: Host, faults: Faults) -> Outcome {
    run_from(menu_event_spec(item_id), host, faults)
}

/// What an invocation comes to, case by case. A window that exists is shown,
/// or the failure to show it is logged. A window that is missing is announced
/// and created, then shown; the failure to create it, or to show it once
/// created, is logged, and what was done before stays done. Nothing is asked
/// twice, and every invocation comes to its end.
pub proof fn lemma_run_outcomes(host: Host, faults: Faults)
    ensures
        run(host, faults) == (if host.has(settings_label()) {
            match faults.show {
                None => Outcome {
                    host: host.shown(settings_label()),
                    requests: seq![
                        RequestView::Lookup(settings_label()),
                        RequestView::Show(settings_label()),
                    ],
                    log: Seq::empty(),
                    phase: Phase::Done,
                },
                Some(detail) => Outcome {
                    host,
                    requests: seq![
                        RequestView::Lookup(settings_label()),
                        RequestView::Show(settings_label()),
                    ],
                    log: seq![failure("Error showing settings window: "@, detail)],
                    phase: Phase::Done,
                },
            }
        } else {
            match (faults.create, faults.show) {
                (Some(detail), _) => Outcome {
                    host,
                    requests: seq![
                        RequestView::Lookup(settings_label()),
                        RequestView::Create(settings_window_view()),
                    ],
                    log: seq![
                        creation_notice(),
                        failure("Failed to create settings window: "@, detail),
                    ],
                    phase: Phase::Done,
                },
                (None, Some(detail)) => Outcome {
                    host: host.created(settings_window_view()),
                    requests: seq![
                        RequestView::Lookup(settings_label()),
                        RequestView::Create(settings_window_view()),
                        RequestView::Show(settings_label()),
                    ],
                    log: seq![
                        creation_notice(),
                        failure("Error showing new settings window: "@, detail),
                    ],
                    phase: Phase::Done,
                },
                (None, None) => Outcome {
                    host: host.created(settings_window_view()).shown(settings_label()),
                    requests: seq![
                        RequestView::Lookup(settings_label()),
                        RequestView::Create(settings_window_view()),
                        RequestView::Show(settings_label()),
                    ],
                    log: seq![creation_notice()],
                    phase: Phase::Done,
                },
            }
        }),
{
    reveal_with_fuel(run_from, 4);
    let outcome = run(host, faults);
    let lookup = RequestView::Lookup(settings_label());
    let show = RequestView::Show(settings_label());
    let create = RequestView::Create(settings_window_view());
    if host.has(settings_label()) {
        assert(outcome.requests =~= seq![lookup, show]);
        match faults.show {
            None => {
                assert(outcome.log =~= Seq::empty());
            },
            Some(detail) => {
                assert(outcome.log =~= seq![failure("Error showing settings window: "@, detail)]);
            },
        }
    } else {
        match (faults.create, faults.show) {
            (Some(detail), _) => {
                assert(outcome.requests =~= seq![lookup, create]);
                assert(outcome.log =~= seq![
                    creation_notice(),
                    failure("Failed to create settings window: "@, detail),
                ]);
            },
            (None, Some(detail)) => {
                assert(outcome.requests =~= seq![lookup, create, show]);
                assert(outcome.log =~= seq![
                    creation_notice(),
                    failure("Error showing new settings window: "@, detail),
                ]);
            },
            (None, None) => {
                assert(outcome.requests =~= seq![lookup, create, show]);
                assert(outcome.log =~= seq![creation_notice()]);
            },
        }
    }
}

/// Showing twice is showing once. On a registry whose names are distinct, one
/// invocation without failure leaves exactly one settings window, on screen;
/// a second one finds it, creates nothing, logs nothing and leaves the
/// registry as the first left it.
pub proof fn lemma_show_is_idempotent(host: Host)
    requires
        host.names_distinct(),
    ensures
        ({
            let once = run(host, Faults::none());
            let twice = run(once.host, Faults::none());
            &&& once.host.names_distinct()
            &&& once.host.has_one(settings_label())
            &&& once.host.window(settings_label()).visible
            &&& twice.host == once.host
            &&& twice.requests == seq![
                RequestView::Lookup(settings_label()),
                RequestView::Show(settings_label()),
            ]
            &&& twice.log == Seq::<LogLineView>::empty()
        }),
{
    let label = settings_label();
    let once = run(host, Faults::none()).host;
    lemma_run_outcomes(host, Faults::none());
    lemma_run_outcomes(once, Faults::none());
    if host.has(label) {
        let i = choose|i: int| host.holds(i, label);
        assert(once.holds(i, label));
        assert forall|j: int| once.holds(j, label) implies j == i by {
            assert(host.holds(j, label));
        }
    } else {
        let i = host.windows.len() as int;
        assert(once.holds(i, label));
        assert forall|j: int| once.holds(j, label) implies j == i by {
            if j < i {
                assert(host.holds(j, label));
            }
        }
        assert forall|a: int, b: int| 0 <= a < b < once.windows.len() implies once.windows[a].config.label
            != once.windows[b].config.label by {
            if b == i {
                assert(!host.holds(a, label));
            }
        }
    }
    let k = choose|k: int| once.holds(k, label);
    assert(once.windows[k].visible);
    assert(once.shown(label).windows =~= once.windows);
}

/// The settings window is created on first use. Where the registry has no
/// window of that name, one invocation without failure adds exactly one: 800
/// by 350, of fixed size, titled "Settings", and on screen. The windows that
/// were there stay as they were.
pub proof fn lemma_lazy_creation(host: Host)
    requires
        !host.has(settings_label()),
    ensures
        ({
            let after = run(host, Faults::none()).host;
            let window = after.window(settings_label());
            &&& after.windows == host.windows.push(
                WindowState { config: settings_window_view(), visible: true },
            )
            &&& after.has_one(settings_label())
            &&& window.visible
            &&& window.config.inner_width == 800
            &&& window.config.inner_height == 350
            &&& !window.config.resizable
            &&& !window.config.minimizable
            &&& window.config.title == "Settings"@
        }),
{
    let label = settings_label();
    let after = run(host, Faults::none()).host;
    lemma_run_outcomes(host, Faults::none());
    let i = host.windows.len() as int;
    assert(after.windows =~= host.windows.push(
        WindowState { config: settings_window_view(), visible: true },
    )) by {
        assert forall|j: int| 0 <= j < i implies after.windows[j] == host.windows[j] by {
            assert(!host.holds(j, label));
        }
    }
    assert(after.holds(i, label));
    assert forall|j: int| after.holds(j, label) implies j == i by {
        if j < i {
            assert(host.holds(j, label));
        }
    }
}

/// A click on the "Settings" menu item and the front-end's command come to the
/// same: the same requests, the same lines, the same registry. A click on any
/// other item asks nothing of the host and logs nothing.
pub proof fn lemma_triggers_agree(item_id: Seq<char>, host: Host, faults: Faults)
    ensures
        item_id == settings_item_id() ==> run_menu_event(item_id, host, faults) == run(
            host,
            faults,
        ),
        item_id != settings_item_id() ==> run_menu_event(item_id, host, faults) == (Outcome {
            host,
            requests: Seq::empty(),
            log: Seq::empty(),
            phase: Phase::Done,
        }),
{
}

/// A failure to create the settings window goes no further than the log.
/// The invocation ends, the registry is as it was, nothing is asked after the
/// failed request, and of the two lines logged exactly one is an error: the
/// one that reports the failure, which is written with the mark `[e]`.
pub proof fn lemma_creation_failure_contained(host: Host, faults: Faults, detail: Seq<char>)
    requires
        !host.has(settings_label()),
        faults.create == Some(detail),
    ensures
        ({
            let outcome = run(host, faults);
            let report = failure("Failed to create settings window: "@, detail);
            &&& outcome.phase == Phase::Done
            &&& outcome.host == host
            &&& outcome.requests.last() == RequestView::Create(settings_window_view())
            &&& outcome.log == seq![creation_notice(), report]
            &&& forall|i: int|
                0 <= i < outcome.log.len() ==> (outcome.log[i].level == Level::Error <==> i == 1)
            &&& begins_with(report.rendered(), "[e]"@)
            &&& !begins_with(creation_notice().rendered(), "[e]"@)
        }),
{
    lemma_run_outcomes(host, faults);
    lemma_rendered_mark(failure("Failed to create settings window: "@, detail));
    lemma_rendered_mark(creation_notice());
}

} // verus!
