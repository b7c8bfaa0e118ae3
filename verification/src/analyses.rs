//! The set of analyses run over a trace.
use vstd::prelude::*;
use crate::analysis::EventAnalysis;
use crate::dependency_graph::{accepts, after_event, empty_graph, FullEvent, GraphView};
use crate::graph::DependencyGraph;

verus! {

/// Which analyses the command line enabled.
#[derive(Debug, Clone, Copy, PartialEq, Eq, Structural)]
pub struct AnalysisSelection {
    pub message_latency: bool,
    pub callback_duration: bool,
    pub utilization: bool,
    pub real_utilization: bool,
    pub callback_dependency: bool,
    pub callback_publications: bool,
    pub message_take_to_callback_latency: bool,
    pub dependency_graph: bool,
    pub spin_duration: bool,
}

/// An analysis that can be run over a trace.
#[derive(Debug, Clone, Copy, PartialEq, Eq, Structural)]
pub enum AnalysisKind {
    MessageLatency,
    CallbackDuration,
    CallbackDependency,
    MessageTakeToCallbackLatency,
    DependencyGraph,
    SpinDuration,
}

/// The analyses to run: which are enabled, and the dependency graph where
/// it is.
pub struct Analyses {
    message_latency_analysis: bool,
    callback_analysis: bool,
    callback_dependency_analysis: bool,
    message_take_to_callback_analysis: bool,
    dependency_graph: Option<DependencyGraph>,
    spin_duration_analysis: bool,
}

/// Which analyses are enabled, in the order they are fed events.
pub struct AnalysesView {
    pub message_latency: bool,
    pub callback: bool,
    pub callback_dependency: bool,
    pub message_take_to_callback: bool,
    pub dependency_graph: Option<GraphView>,
    pub spin_duration: bool,
}

impl View for Analyses {
    type V = AnalysesView;

    closed spec fn view(&self) -> AnalysesView {
        AnalysesView {
            message_latency: self.message_latency_analysis,
            callback: self.callback_analysis,
            callback_dependency: self.callback_dependency_analysis,
            message_take_to_callback: self.message_take_to_callback_analysis,
            dependency_graph: match self.dependency_graph {
                Some(g) => Some(g@),
                None => None,
            },
            spin_duration: self.spin_duration_analysis,
        }
    }
}

/// The enabled analyses, in the order they are fed events.
pub open spec fn enabled_kinds(a: AnalysesView) -> Seq<AnalysisKind> {
    (if a.message_latency {
        seq![AnalysisKind::MessageLatency]
    } else {
        Seq::empty()
    }) + (if a.callback {
        seq![AnalysisKind::CallbackDuration]
    } else {
        Seq::empty()
    }) + (if a.callback_dependency {
        seq![AnalysisKind::CallbackDependency]
    } else {
        Seq::empty()
    }) + (if a.message_take_to_callback {
        seq![AnalysisKind::MessageTakeToCallbackLatency]
    } else {
        Seq::empty()
    }) + (if a.dependency_graph is Some {
        seq![AnalysisKind::DependencyGraph]
    } else {
        Seq::empty()
    }) + (if a.spin_duration {
        seq![AnalysisKind::SpinDuration]
    } else {
        Seq::empty()
    })
}

fn push_if(v: &mut Vec<AnalysisKind>, enabled: bool, k: AnalysisKind)
    ensures
        final(v)@ == old(v)@ + if enabled {
            seq![k]
        } else {
            Seq::empty()
        },
{
    if enabled {
        v.push(k);
        assert(v@ =~= old(v)@ + seq![k]);
    } else {
        assert(v@ =~= old(v)@ + Seq::<AnalysisKind>::empty());
    }
}

impl Analyses {
    /// No analysis enabled.
    pub fn default() -> (a: Self)
        ensures
            a@ == (AnalysesView {
                message_latency: false,
                callback: false,
                callback_dependency: false,
                message_take_to_callback: false,
                dependency_graph: None,
                spin_duration: false,
            }),
            a.wf(),
    {
        Analyses {
            message_latency_analysis: false,
            callback_analysis: false,
            callback_dependency_analysis: false,
            message_take_to_callback_analysis: false,
            dependency_graph: None,
            spin_duration_analysis: false,
        }
    }

    /// The dependency graph, where present, is well formed.
    pub closed spec fn wf(&self) -> bool {
        match self.dependency_graph {
            Some(g) => g.wf(),
            None => true,
        }
    }

    /// Enables the analyses the arguments ask for: the callback analysis
    /// also for utilization, the callback dependency analysis also for
    /// publications in callbacks; a newly enabled dependency graph starts
    /// empty. Analyses not asked for stay as they were.
    pub fn add_analyses_from_args(&mut self, args: &AnalysisSelection)
        requires
            old(self).wf(),
        ensures
            final(self).wf(),
            final(self)@.message_latency == (old(self)@.message_latency || args.message_latency),
            final(self)@.callback == (old(self)@.callback || args.callback_duration || args.utilization
                || args.real_utilization),
            final(self)@.callback_dependency == (old(self)@.callback_dependency || args.callback_dependency
                || args.callback_publications),
            final(self)@.message_take_to_callback == (old(self)@.message_take_to_callback
                || args.message_take_to_callback_latency),
            final(self)@.dependency_graph == if args.dependency_graph {
                Some(empty_graph())
            } else {
                old(self)@.dependency_graph
            },
            final(self)@.spin_duration == (old(self)@.spin_duration || args.spin_duration),
    {
        if args.message_latency {
            self.message_latency_analysis = true;
        }
        if args.callback_duration || args.utilization || args.real_utilization {
            self.callback_analysis = true;
        }
        if args.callback_dependency || args.callback_publications {
            self.callback_dependency_analysis = true;
        }
        if args.message_take_to_callback_latency {
            self.message_take_to_callback_analysis = true;
        }
        if args.dependency_graph {
            self.dependency_graph = Some(DependencyGraph::new());
        }
        if args.spin_duration {
            self.spin_duration_analysis = true;
        }
    }

    /// The enabled analyses, in the order they are fed events.
    pub fn all_as_mut(&self) -> (v: Vec<AnalysisKind>)
        ensures
            v@ == enabled_kinds(self@),
    {
        let mut v: Vec<AnalysisKind> = Vec::new();
        push_if(&mut v, self.message_latency_analysis, AnalysisKind::MessageLatency);
        push_if(&mut v, self.callback_analysis, AnalysisKind::CallbackDuration);
        push_if(&mut v, self.callback_dependency_analysis, AnalysisKind::CallbackDependency);
        push_if(
            &mut v,
            self.message_take_to_callback_analysis,
            AnalysisKind::MessageTakeToCallbackLatency,
        );
        push_if(&mut v, self.dependency_graph.is_some(), AnalysisKind::DependencyGraph);
        push_if(&mut v, self.spin_duration_analysis, AnalysisKind::SpinDuration);
        assert(v@ =~= enabled_kinds(self@));
        v
    }

    /// The dependency graph, where it is enabled.
    pub fn dependency_graph(&self) -> (g: Option<&DependencyGraph>)
        requires
            self.wf(),
        ensures
            match g {
                Some(d) => self@.dependency_graph == Some(d@) && d.wf(),
                None => self@.dependency_graph is None,
            },
    {
        match &self.dependency_graph {
            Some(g) => Some(g),
            None => None,
        }
    }

    /// Feeds one event to the dependency graph, where it is enabled and can
    /// take it.
    pub fn process_event(&mut self, event: &FullEvent)
        requires
            old(self).wf(),
            match old(self)@.dependency_graph {
                Some(g) => accepts(g, *event),
                None => true,
            },
        ensures
            final(self).wf(),
            final(self)@ == (AnalysesView {
                dependency_graph: match old(self)@.dependency_graph {
                    Some(g) => Some(after_event(g, *event)),
                    None => None,
                },
                ..old(self)@
            }),
    {
        match self.dependency_graph.take() {
            Some(mut g) => {
                g.process_event(event);
                self.dependency_graph = Some(g);
            },
            None => {},
        }
    }
}

} // verus!
