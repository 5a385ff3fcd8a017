//! IFS-based rendering algorithms such as the Chaos Game.
use vstd::prelude::*;
use crate::json_doc::{JsonDoc, spec_member, spec_is_str};

verus! {

/// A generic IFS-based rendering algorithm like the Chaos Game and other
/// related algorithms
pub trait Algorithm {
    /// Perform the main iterations of the algorithm
    fn iterate(&mut self);

    /// Save the file to disk
    fn save(&mut self);

    /// Get the complexity of the algorithm measured by number of points in
    /// the output tileset.
    fn complexity(&self) -> usize;
}

/// Number of iterations the Chaos Game runs before it plots, as the first
/// few points are often not on the fractal
pub const STARTUP_ITERS: usize = 10;

/// The Chaos Game prints its progress every this many iterations
pub const UPDATE_FREQ: usize = 100000;

/// The complexity of the "chaos sets" algorithm is O(m * n * p) where m is
/// the points in each initial set, n is the number of copies of the initial
/// set, and p is the number of iterations. The size of a single set is
/// added to account for the 0-th iteration.
pub fn chaos_sets_complexity(points_per_buf: usize, cluster_copies: usize, num_iters: usize) -> (complexity: usize)
    requires
        points_per_buf * cluster_copies * num_iters + points_per_buf <= usize::MAX,
    ensures
        complexity == points_per_buf * cluster_copies * num_iters + points_per_buf,
{
    proof {
        assert(points_per_buf * cluster_copies <= points_per_buf * cluster_copies * num_iters
            + points_per_buf || num_iters == 0) by (nonlinear_arith);
        assert(points_per_buf * cluster_copies <= usize::MAX || num_iters == 0) by (nonlinear_arith)
            requires
                points_per_buf * cluster_copies * num_iters + points_per_buf <= usize::MAX,
        ;
    }
    if num_iters == 0 {
        return points_per_buf;
    }
    let points_per_iter = points_per_buf * cluster_copies;
    points_per_iter * num_iters + points_per_buf
}

/// Whether the Chaos Game reports progress after iteration `i`: once every
/// `UPDATE_FREQ` iterations, counted from the end of the startup iterations.
pub fn reports_progress(i: usize) -> (report: bool)
    ensures
        report == (i > STARTUP_ITERS && i % UPDATE_FREQ == STARTUP_ITERS),
{
    i > STARTUP_ITERS && i % UPDATE_FREQ == STARTUP_ITERS
}

/// Whether the Chaos Game plots the point of iteration `i`: the startup
/// iterations are skipped.
pub fn plots_iteration(i: usize) -> (plot: bool)
    ensures
        plot == (i >= STARTUP_ITERS),
{
    i >= STARTUP_ITERS
}


/// The algorithms that a parameter file can ask for
#[derive(Debug, Clone, Copy, PartialEq, Eq, Structural)]
pub enum AlgorithmKind {
    ChaosGame,
    ChaosSets,
}

/// The algorithm that the parameters ask for by `"algorithm"`: `"chaos"`
/// or `"chaos_sets"`; `None` for anything else.
pub open spec fn spec_algorithm_kind(json: JsonDoc) -> Option<AlgorithmKind> {
    let algorithm = spec_member(json, "algorithm"@);
    if spec_is_str(algorithm, "chaos"@) {
        Some(AlgorithmKind::ChaosGame)
    } else if spec_is_str(algorithm, "chaos_sets"@) {
        Some(AlgorithmKind::ChaosSets)
    } else {
        None
    }
}

/// The parameters select the Chaos Game by the algorithm "chaos", the chaos
/// sets by "chaos_sets", and no algorithm by anything else.
pub proof fn lemma_algorithm_kind_by_name(json: JsonDoc)
    ensures
        spec_is_str(spec_member(json, "algorithm"@), "chaos"@) ==> spec_algorithm_kind(json)
            == Some(AlgorithmKind::ChaosGame),
        spec_is_str(spec_member(json, "algorithm"@), "chaos_sets"@) ==> spec_algorithm_kind(json)
            == Some(AlgorithmKind::ChaosSets),
        !spec_is_str(spec_member(json, "algorithm"@), "chaos"@) && !spec_is_str(
            spec_member(json, "algorithm"@),
            "chaos_sets"@,
        ) ==> spec_algorithm_kind(json) is None,
{
    reveal_strlit("chaos");
    reveal_strlit("chaos_sets");
    assert("chaos"@.len() != "chaos_sets"@.len());
}

/// Read the algorithm from parameters of the form
/// `{ "algorithm": "chaos" | "chaos_sets", ...params }`
pub fn algorithm_kind(json: &JsonDoc) -> (kind: Option<AlgorithmKind>)
    ensures
        kind == spec_algorithm_kind(*json),
        spec_is_str(spec_member(*json, "algorithm"@), "chaos"@) ==> kind == Some(
            AlgorithmKind::ChaosGame,
        ),
        spec_is_str(spec_member(*json, "algorithm"@), "chaos_sets"@) ==> kind == Some(
            AlgorithmKind::ChaosSets,
        ),
        !spec_is_str(spec_member(*json, "algorithm"@), "chaos"@) && !spec_is_str(
            spec_member(*json, "algorithm"@),
            "chaos_sets"@,
        ) ==> kind is None,
{
    proof {
        lemma_algorithm_kind_by_name(*json);
    }
    let algorithm = json.member("algorithm");
    if algorithm.is_str("chaos") {
        Some(AlgorithmKind::ChaosGame)
    } else if algorithm.is_str("chaos_sets") {
        Some(AlgorithmKind::ChaosSets)
    } else {
        None
    }
}

} // verus!
