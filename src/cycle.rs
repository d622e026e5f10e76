use vstd::prelude::*;
use crate::curve::{curve_points, grid_len, grid_positions, visible_points, Point, ViewRange};
use crate::expression::{binds, blank, compile, parses, CompileError, Expression};
use crate::riemann::{
    compute_rectangles, is_riemann_set, sample_num, sample_positions, Domain, Fraction,
    RectangleSet, RectangleSpec, Sample,
};

verus! {

/// A snapshot of what the user has set for one recompute cycle.
#[derive(Clone, Copy, Debug, PartialEq, Eq, Structural)]
pub struct Settings {
    pub domain: Domain,
    pub range: ViewRange,
    pub spec: RectangleSpec,
    pub show_rectangles: bool,
}

/// What a cycle must evaluate: the bound expression at each grid position, and,
/// where rectangles are shown, at each rectangle's sample position.
pub struct CyclePlan {
    pub expression: Expression,
    pub grid: Vec<i32>,
    pub sample_positions: Option<Vec<Fraction>>,
}

/// What a cycle draws: the visible curve, and the rectangles with their area
/// where they are shown.
pub struct Frame {
    pub curve: Vec<Point>,
    pub rectangles: Option<RectangleSet>,
}

/// The first half of a cycle: compiles `text` in the variable `x` and lists the
/// positions to evaluate. A text that does not compile gives its error (as
/// `compile` says) and nothing to evaluate, so the cycle draws nothing.
pub fn plan_cycle(text: &str, settings: &Settings) -> (r: Result<CyclePlan, CompileError>)
    ensures
        (r is Err && r->Err_0 == CompileError::ParseFailed) <==> (blank(text@) || !parses(text@)),
        (r is Err && r->Err_0 == CompileError::BindFailed) <==> (!blank(text@) && parses(text@)
            && !binds(text@, seq!['x'])),
        r is Ok <==> (!blank(text@) && parses(text@) && binds(text@, seq!['x'])),
        r is Ok ==> {
            let p = r->Ok_0;
            &&& p.expression.variable_view() == seq!['x']
            &&& p.grid.len() == grid_len(settings.domain)
            &&& forall|k: int| 0 <= k < p.grid.len() ==> p.grid[k] == settings.domain.min + k
            &&& (p.sample_positions is Some <==> settings.show_rectangles)
            &&& settings.show_rectangles ==> {
                let sp = p.sample_positions->Some_0;
                &&& sp.len() == settings.spec.count
                &&& forall|i: int|
                    0 <= i < sp.len() ==> sp[i].num == sample_num(settings.domain, settings.spec, i)
                        && sp[i].den == 1000 * settings.spec.count
            }
        },
{
    proof {
        reveal_strlit("x");
        assert("x"@ =~= seq!['x']);
    }
    let expression = match compile(text, "x") {
        Err(e) => {
            return Err(e);
        },
        Ok(expression) => expression,
    };
    let grid = grid_positions(settings.domain);
    let sample_positions = if settings.show_rectangles {
        Some(sample_positions(settings.domain, settings.spec))
    } else {
        None
    };
    Ok(CyclePlan { expression, grid, sample_positions })
}

/// The second half of a cycle: `values[k]` is the expression at `grid[k]` and
/// `heights[i]` at sample position `i`. The curve keeps the visible values; the
/// rectangles are built only where they are shown.
pub fn finish_cycle(settings: &Settings, values: &Vec<Sample>, heights: &Vec<Sample>) -> (r: Frame)
    requires
        values.len() == grid_len(settings.domain),
        settings.show_rectangles ==> heights.len() == settings.spec.count,
    ensures
        r.curve@ == curve_points(settings.domain.min as int, values@, settings.range),
        r.rectangles is Some <==> settings.show_rectangles,
        settings.show_rectangles ==> is_riemann_set(
            settings.domain,
            settings.spec,
            heights@,
            r.rectangles->Some_0,
        ),
{
    let curve = visible_points(settings.domain, values, settings.range);
    let rectangles = if settings.show_rectangles {
        Some(compute_rectangles(settings.domain, settings.spec, heights))
    } else {
        None
    };
    Frame { curve, rectangles }
}

} // verus!
