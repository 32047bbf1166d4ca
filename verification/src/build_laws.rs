//! What holds of every run of a shader build, whatever the driver answers.

use crate::shader::{
    finished, step_spec, BuildErrorView, DriverCallView, DriverReplyView, ShaderBuildView,
    ShaderProgram, StageKind, STATUS_OK,
};
use crate::shader::{diagnostic, start};
use vstd::multiset::Multiset;
use vstd::prelude::*;

verus! {

/// A build fed a sequence of answers: the state it ends in and all the
/// calls it asked for, in order.
pub open spec fn run(state: ShaderBuildView, replies: Seq<DriverReplyView>) -> (
    ShaderBuildView,
    Seq<DriverCallView>,
)
    decreases replies.len(),
{
    if replies.len() == 0 {
        (state, Seq::empty())
    } else {
        let (next, calls) = step_spec(state, replies[0]);
        let (last, more) = run(next, replies.skip(1));
        (last, calls + more)
    }
}

/// The stages a build holds and has still to release.
pub open spec fn live_stages(state: ShaderBuildView) -> Multiset<u32> {
    match state {
        ShaderBuildView::CompilingFragment { vertex } => Multiset::singleton(vertex),
        ShaderBuildView::Linking { vertex, fragment } => Multiset::singleton(vertex).insert(
            fragment,
        ),
        _ => Multiset::empty(),
    }
}

/// The stage that an answer hands over to a build that waits for it.
pub open spec fn adopted(state: ShaderBuildView, reply: DriverReplyView) -> Multiset<u32> {
    match (state, reply) {
        (
            ShaderBuildView::CompilingVertex { .. },
            DriverReplyView::StageCompiled { stage, .. },
        ) => Multiset::singleton(stage),
        (
            ShaderBuildView::CompilingFragment { .. },
            DriverReplyView::StageCompiled { stage, .. },
        ) => Multiset::singleton(stage),
        _ => Multiset::empty(),
    }
}

/// All the stages handed over to a build in the course of a run.
pub open spec fn adopted_over(state: ShaderBuildView, replies: Seq<DriverReplyView>) -> Multiset<
    u32,
>
    decreases replies.len(),
{
    if replies.len() == 0 {
        Multiset::empty()
    } else {
        adopted(state, replies[0]).add(
            adopted_over(step_spec(state, replies[0]).0, replies.skip(1)),
        )
    }
}

/// The stages that a list of calls releases, each as often as it is released.
pub open spec fn released(calls: Seq<DriverCallView>) -> Multiset<u32>
    decreases calls.len(),
{
    if calls.len() == 0 {
        Multiset::empty()
    } else {
        let rest = released(calls.skip(1));
        match calls[0] {
            DriverCallView::DeleteStage { stage } => rest.insert(stage),
            _ => rest,
        }
    }
}

/// How many links a list of calls asks for.
pub open spec fn link_count(calls: Seq<DriverCallView>) -> nat
    decreases calls.len(),
{
    if calls.len() == 0 {
        0
    } else {
        (if calls[0] is LinkProgram { 1nat } else { 0nat }) + link_count(calls.skip(1))
    }
}

/// How many compilations a list of calls asks for.
pub open spec fn compile_count(calls: Seq<DriverCallView>) -> nat
    decreases calls.len(),
{
    if calls.len() == 0 {
        0
    } else {
        (if calls[0] is CompileStage { 1nat } else { 0nat }) + compile_count(calls.skip(1))
    }
}

proof fn lemma_released_concat(a: Seq<DriverCallView>, b: Seq<DriverCallView>)
    ensures
        released(a + b) == released(a).add(released(b)),
    decreases a.len(),
{
    if a.len() == 0 {
        assert(a + b =~= b);
        assert(released(a).add(released(b)) =~= released(b));
    } else {
        assert((a + b).skip(1) =~= a.skip(1) + b);
        lemma_released_concat(a.skip(1), b);
        assert(released(a + b) =~= released(a).add(released(b)));
    }
}

proof fn lemma_counts_concat(a: Seq<DriverCallView>, b: Seq<DriverCallView>)
    ensures
        link_count(a + b) == link_count(a) + link_count(b),
        compile_count(a + b) == compile_count(a) + compile_count(b),
    decreases a.len(),
{
    if a.len() == 0 {
        assert(a + b =~= b);
    } else {
        assert((a + b).skip(1) =~= a.skip(1) + b);
        lemma_counts_concat(a.skip(1), b);
    }
}

proof fn lemma_released_two(x: DriverCallView, y: DriverCallView)
    ensures
        released(seq![x, y]) == released(seq![x]).add(released(seq![y])),
{
    assert(seq![x, y] =~= seq![x] + seq![y]);
    lemma_released_concat(seq![x], seq![y]);
}

proof fn lemma_released_one(x: DriverCallView)
    ensures
        released(seq![x]) == (match x {
            DriverCallView::DeleteStage { stage } => Multiset::singleton(stage),
            _ => Multiset::empty(),
        }),
{
    assert(seq![x].skip(1) =~= Seq::<DriverCallView>::empty());
    assert(released(seq![x].skip(1)) =~= Multiset::empty());
    assert(released(seq![x]) =~= (match x {
        DriverCallView::DeleteStage { stage } => Multiset::singleton(stage),
        _ => Multiset::empty(),
    }));
}

proof fn lemma_count_one(x: DriverCallView)
    ensures
        link_count(seq![x]) == (if x is LinkProgram { 1nat } else { 0nat }),
        compile_count(seq![x]) == (if x is CompileStage { 1nat } else { 0nat }),
{
    reveal_with_fuel(link_count, 2);
    reveal_with_fuel(compile_count, 2);
}

proof fn lemma_count_two(x: DriverCallView, y: DriverCallView)
    ensures
        link_count(seq![x, y]) == link_count(seq![x]) + link_count(seq![y]),
        compile_count(seq![x, y]) == compile_count(seq![x]) + compile_count(seq![y]),
{
    assert(seq![x, y] =~= seq![x] + seq![y]);
    lemma_counts_concat(seq![x], seq![y]);
}

/// One step keeps account of the stages: what the build held and was
/// handed is what it released and still holds.
pub proof fn lemma_step_accounts_for_stages(state: ShaderBuildView, reply: DriverReplyView)
    ensures
        live_stages(state).add(adopted(state, reply)) == released(step_spec(state, reply).1).add(
            live_stages(step_spec(state, reply).0),
        ),
{
    let (next, calls) = step_spec(state, reply);
    let lhs = live_stages(state).add(adopted(state, reply));
    let rhs = released(calls).add(live_stages(next));
    if calls.len() == 0 {
        assert(calls =~= Seq::empty());
        assert(lhs =~= rhs);
    } else if calls.len() == 1 {
        assert(calls =~= seq![calls[0]]);
        lemma_released_one(calls[0]);
        assert(lhs =~= rhs);
    } else {
        assert(calls =~= seq![calls[0], calls[1]]);
        lemma_released_two(calls[0], calls[1]);
        lemma_released_one(calls[0]);
        lemma_released_one(calls[1]);
        assert(lhs =~= rhs);
    }
}

/// No stage leaks and none is released twice: over any run, the stages
/// that the build held or was handed are those it released and those it
/// still holds, each counted as often as it occurs.
pub proof fn lemma_run_accounts_for_stages(state: ShaderBuildView, replies: Seq<DriverReplyView>)
    ensures
        live_stages(state).add(adopted_over(state, replies)) == released(run(state, replies).1).add(
            live_stages(run(state, replies).0),
        ),
    decreases replies.len(),
{
    if replies.len() == 0 {
        assert(released(Seq::<DriverCallView>::empty()) =~= Multiset::empty());
        assert(live_stages(state).add(adopted_over(state, replies)) =~= released(
            run(state, replies).1,
        ).add(live_stages(run(state, replies).0)));
    } else {
        let (next, calls) = step_spec(state, replies[0]);
        let (last, more) = run(next, replies.skip(1));
        lemma_step_accounts_for_stages(state, replies[0]);
        lemma_run_accounts_for_stages(next, replies.skip(1));
        lemma_released_concat(calls, more);
        let held = live_stages(state);
        let handed = adopted(state, replies[0]);
        let handed_later = adopted_over(next, replies.skip(1));
        assert(adopted_over(state, replies) == handed.add(handed_later));
        assert forall|stage: u32|
            held.add(handed.add(handed_later)).count(stage) == released(calls + more).add(
                live_stages(last),
            ).count(stage) by {
            assert(held.add(handed).count(stage) == released(calls).add(live_stages(next)).count(
                stage,
            ));
            assert(live_stages(next).add(handed_later).count(stage) == released(more).add(
                live_stages(last),
            ).count(stage));
            assert(released(calls + more).count(stage) == released(calls).add(
                released(more),
            ).count(stage));
        }
        assert(held.add(handed.add(handed_later)) =~= released(calls + more).add(
            live_stages(last),
        ));
    }
}

/// A build that has ended holds no stage.
pub proof fn lemma_finished_holds_no_stage(state: ShaderBuildView)
    requires
        finished(state),
    ensures
        live_stages(state) == Multiset::<u32>::empty(),
{
}

/// A build that has ended stays as it is and asks for nothing more.
pub proof fn lemma_finished_absorbs(state: ShaderBuildView, replies: Seq<DriverReplyView>)
    requires
        finished(state),
    ensures
        run(state, replies) == (state, Seq::<DriverCallView>::empty()),
    decreases replies.len(),
{
    if replies.len() > 0 {
        lemma_finished_absorbs(state, replies.skip(1));
        assert(Seq::<DriverCallView>::empty() + Seq::<DriverCallView>::empty() =~= Seq::<
            DriverCallView,
        >::empty());
    }
}

/// A run on one answer followed by others is one step, then the run on
/// the others.
pub proof fn lemma_run_first(
    state: ShaderBuildView,
    reply: DriverReplyView,
    rest: Seq<DriverReplyView>,
)
    ensures
        run(state, seq![reply] + rest) == (
            run(step_spec(state, reply).0, rest).0,
            step_spec(state, reply).1 + run(step_spec(state, reply).0, rest).1,
        ),
{
    let replies = seq![reply] + rest;
    assert(replies[0] == reply);
    assert(replies.skip(1) =~= rest);
}

/// Where the vertex stage does not compile, the build ends with the
/// vertex error and the diagnostic of that stage, whatever is answered
/// afterwards. All it ever asks for is the release of the failed stage:
/// no fragment stage is compiled and no link is attempted.
pub proof fn lemma_vertex_failure_is_final(
    fragment_source: Seq<char>,
    stage: u32,
    status: i32,
    log: Seq<u8>,
    rest: Seq<DriverReplyView>,
)
    requires
        status != STATUS_OK,
    ensures
        run(
            start(fragment_source),
            seq![DriverReplyView::StageCompiled { stage, status, log }] + rest,
        ) == (
            ShaderBuildView::Failed(BuildErrorView::VertexCompile(diagnostic(log))),
            seq![DriverCallView::DeleteStage { stage }],
        ),
{
    let reply = DriverReplyView::StageCompiled { stage, status, log };
    let failed = ShaderBuildView::Failed(BuildErrorView::VertexCompile(diagnostic(log)));
    lemma_run_first(start(fragment_source), reply, rest);
    lemma_finished_absorbs(failed, rest);
    assert(seq![DriverCallView::DeleteStage { stage }] + Seq::empty() =~= seq![
        DriverCallView::DeleteStage { stage },
    ]);
}

/// Where the vertex stage compiles and the fragment stage does not, the
/// build ends with the fragment error and the diagnostic of that stage.
/// Both stages are released, and no link is attempted.
pub proof fn lemma_fragment_failure_is_final(
    fragment_source: Seq<char>,
    vertex: u32,
    vertex_log: Seq<u8>,
    stage: u32,
    status: i32,
    log: Seq<u8>,
    rest: Seq<DriverReplyView>,
)
    requires
        status != STATUS_OK,
    ensures
        run(
            start(fragment_source),
            seq![
                DriverReplyView::StageCompiled {
                    stage: vertex,
                    status: STATUS_OK,
                    log: vertex_log,
                },
                DriverReplyView::StageCompiled { stage, status, log },
            ] + rest,
        ) == (
            ShaderBuildView::Failed(BuildErrorView::FragmentCompile(diagnostic(log))),
            seq![
                DriverCallView::CompileStage { kind: StageKind::Fragment, source: fragment_source },
                DriverCallView::DeleteStage { stage: vertex },
                DriverCallView::DeleteStage { stage },
            ],
        ),
{
    let first = DriverReplyView::StageCompiled {
        stage: vertex,
        status: STATUS_OK,
        log: vertex_log,
    };
    let second = DriverReplyView::StageCompiled { stage, status, log };
    let failed = ShaderBuildView::Failed(BuildErrorView::FragmentCompile(diagnostic(log)));
    assert(seq![first, second] + rest =~= seq![first] + (seq![second] + rest));
    lemma_run_first(start(fragment_source), first, seq![second] + rest);
    lemma_run_first(ShaderBuildView::CompilingFragment { vertex }, second, rest);
    lemma_finished_absorbs(failed, rest);
    let calls = run(start(fragment_source), seq![first, second] + rest).1;
    assert(calls =~= seq![
        DriverCallView::CompileStage { kind: StageKind::Fragment, source: fragment_source },
        DriverCallView::DeleteStage { stage: vertex },
        DriverCallView::DeleteStage { stage },
    ]);
}

/// Where both stages compile, the outcome is that of the link: the
/// program under the handle the driver gave it, or the link error with
/// the diagnostic of the link. Either way the build compiles the fragment
/// stage, links once, and releases both stages after the link.
pub proof fn lemma_link_decides(
    fragment_source: Seq<char>,
    vertex: u32,
    vertex_log: Seq<u8>,
    fragment: u32,
    fragment_log: Seq<u8>,
    program: u32,
    status: i32,
    log: Seq<u8>,
    rest: Seq<DriverReplyView>,
)
    ensures
        run(
            start(fragment_source),
            seq![
                DriverReplyView::StageCompiled {
                    stage: vertex,
                    status: STATUS_OK,
                    log: vertex_log,
                },
                DriverReplyView::StageCompiled {
                    stage: fragment,
                    status: STATUS_OK,
                    log: fragment_log,
                },
                DriverReplyView::ProgramLinked { program, status, log },
            ] + rest,
        ) == (
            if status == STATUS_OK {
                ShaderBuildView::Built(ShaderProgram { id: program })
            } else {
                ShaderBuildView::Failed(BuildErrorView::Link(diagnostic(log)))
            },
            seq![
                DriverCallView::CompileStage { kind: StageKind::Fragment, source: fragment_source },
                DriverCallView::LinkProgram { vertex, fragment },
                DriverCallView::DeleteStage { stage: vertex },
                DriverCallView::DeleteStage { stage: fragment },
            ],
        ),
{
    let first = DriverReplyView::StageCompiled {
        stage: vertex,
        status: STATUS_OK,
        log: vertex_log,
    };
    let second = DriverReplyView::StageCompiled {
        stage: fragment,
        status: STATUS_OK,
        log: fragment_log,
    };
    let third = DriverReplyView::ProgramLinked { program, status, log };
    let linking = ShaderBuildView::Linking { vertex, fragment };
    let last = step_spec(linking, third).0;
    assert(seq![first, second, third] + rest =~= seq![first] + (seq![second] + (seq![third]
        + rest)));
    lemma_run_first(start(fragment_source), first, seq![second] + (seq![third] + rest));
    lemma_run_first(ShaderBuildView::CompilingFragment { vertex }, second, seq![third] + rest);
    lemma_run_first(linking, third, rest);
    lemma_finished_absorbs(last, rest);
    let calls = run(start(fragment_source), seq![first, second, third] + rest).1;
    assert(calls =~= seq![
        DriverCallView::CompileStage { kind: StageKind::Fragment, source: fragment_source },
        DriverCallView::LinkProgram { vertex, fragment },
        DriverCallView::DeleteStage { stage: vertex },
        DriverCallView::DeleteStage { stage: fragment },
    ]);
}

/// How many links a build may still ask for.
pub open spec fn links_ahead(state: ShaderBuildView) -> nat {
    match state {
        ShaderBuildView::CompilingVertex { .. } => 1,
        ShaderBuildView::CompilingFragment { .. } => 1,
        _ => 0,
    }
}

/// How many compilations a build may still ask for.
pub open spec fn compiles_ahead(state: ShaderBuildView) -> nat {
    match state {
        ShaderBuildView::CompilingVertex { .. } => 1,
        _ => 0,
    }
}

/// Whatever the driver answers and however often, a build links at most
/// once, and asks for at most one compilation beyond its first call.
pub proof fn lemma_links_at_most_once(state: ShaderBuildView, replies: Seq<DriverReplyView>)
    ensures
        link_count(run(state, replies).1) <= links_ahead(state),
        compile_count(run(state, replies).1) <= compiles_ahead(state),
    decreases replies.len(),
{
    if replies.len() > 0 {
        let (next, calls) = step_spec(state, replies[0]);
        let more = run(next, replies.skip(1)).1;
        lemma_links_at_most_once(next, replies.skip(1));
        lemma_counts_concat(calls, more);
        if calls.len() == 1 {
            assert(calls =~= seq![calls[0]]);
            lemma_count_one(calls[0]);
        } else if calls.len() == 2 {
            assert(calls =~= seq![calls[0], calls[1]]);
            lemma_count_two(calls[0], calls[1]);
            lemma_count_one(calls[0]);
            lemma_count_one(calls[1]);
        } else {
            assert(calls =~= Seq::empty());
        }
    }
}

} // verus!
