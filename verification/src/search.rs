use vstd::prelude::*;
use crate::errors::{AutoGuiError, is_image_error, image_processing_error};
use crate::template::Template;

verus! {

/// Horizontal screen coordinate of the centre of `template` when it is found
/// at column `x` of its search region.
pub open spec fn center_x<S, F>(template: Template<S, F>, x: u32) -> int {
    x + template.region.0 + template.width / 2
}

/// Vertical screen coordinate of the centre of `template` when it is found
/// at row `y` of its search region.
pub open spec fn center_y<S, F>(template: Template<S, F>, y: u32) -> int {
    y + template.region.1 + template.height / 2
}

/// Whether the centres of all `locations` are representable screen coordinates.
pub open spec fn centers_fit<S, F, C>(template: Template<S, F>, locations: Seq<(u32, u32, C)>) -> bool {
    forall|i: int|
        0 <= i < locations.len() ==> center_x(template, #[trigger] locations[i].0) <= u32::MAX
            && center_y(template, locations[i].1) <= u32::MAX
}

/// `centered` holds the centres of `locations` on screen, each with its
/// correlation value.
pub open spec fn centered_locations<S, F, C>(
    template: Template<S, F>,
    locations: Seq<(u32, u32, C)>,
    centered: Seq<(u32, u32, C)>,
) -> bool {
    &&& centered.len() == locations.len()
    &&& forall|i: int|
        0 <= i < locations.len() ==> {
            &&& (#[trigger] centered[i]).0 == center_x(template, locations[i].0)
            &&& centered[i].1 == center_y(template, locations[i].1)
            &&& centered[i].2 == locations[i].2
        }
}

/// Screen position of the centre of `template` found at `(x, y)` of its search region.
pub fn center_location<S, F>(template: &Template<S, F>, x: u32, y: u32) -> (r: (u32, u32))
    requires
        center_x(*template, x) <= u32::MAX,
        center_y(*template, y) <= u32::MAX,
    ensures
        r.0 == center_x(*template, x),
        r.1 == center_y(*template, y),
        r.0 == x + template.region.0 + template.width / 2,
        r.1 == y + template.region.1 + template.height / 2,
{
    (x + template.region.0 + template.width / 2, y + template.region.1 + template.height / 2)
}

/// The outcome of one run of a matching algorithm: the locations it found
/// (position in the search region and correlation), or `None` when it found none.
pub fn run_x_corr<C>(found_locations: Vec<(u32, u32, C)>) -> (r: Option<Vec<(u32, u32, C)>>)
    ensures
        found_locations@.len() == 0 ==> r is None,
        found_locations@.len() > 0 ==> (r matches Some(v) && v@ == found_locations@),
{
    if found_locations.len() > 0 {
        Some(found_locations)
    } else {
        None
    }
}

/// Turns the locations a search found in the template's region into the
/// screen positions of the template's centre, keeping each correlation value.
pub fn find_image_on_screen<S, F, C: Copy>(
    template: &Template<S, F>,
    found: Option<Vec<(u32, u32, C)>>,
) -> (r: Option<Vec<(u32, u32, C)>>)
    requires
        found matches Some(v) ==> centers_fit(*template, v@),
    ensures
        found is None <==> r is None,
        found matches Some(v) ==> (r matches Some(w) && centered_locations(*template, v@, w@)),
{
    match found {
        None => None,
        Some(locations) => {
            let mut centered: Vec<(u32, u32, C)> = Vec::new();
            let mut i: usize = 0;
            while i < locations.len()
                invariant
                    i <= locations@.len(),
                    centers_fit(*template, locations@),
                    centered_locations(*template, locations@.take(i as int), centered@),
                decreases locations@.len() - i,
            {
                let (x, y, corr) = locations[i];
                assert(locations@.take(i as int + 1)[i as int] == locations@[i as int]);
                let (cx, cy) = center_location(template, x, y);
                centered.push((cx, cy, corr));
                proof {
                    assert forall|j: int| 0 <= j < i + 1 implies {
                        &&& (#[trigger] centered@[j]).0 == center_x(
                            *template,
                            locations@.take(i + 1)[j].0,
                        )
                        &&& centered@[j].1 == center_y(*template, locations@.take(i + 1)[j].1)
                        &&& centered@[j].2 == locations@.take(i + 1)[j].2
                    } by {
                        if j < i {
                            assert(locations@.take(i + 1)[j] == locations@.take(i as int)[j]);
                        }
                    }
                }
                i = i + 1;
            }
            assert(locations@.take(locations@.len() as int) =~= locations@);
            Some(centered)
        },
    }
}

/// Where the mouse goes after a search: the first location found, if any.
pub fn move_target<C: Copy>(found: &Option<Vec<(u32, u32, C)>>) -> (r: Option<(u32, u32)>)
    requires
        found matches Some(v) ==> v@.len() > 0,
    ensures
        found is None ==> r is None,
        found matches Some(v) ==> r == Some((v@[0].0, v@[0].1)),
{
    match found {
        None => None,
        Some(locations) => {
            let (x, y, _) = locations[0];
            Some((x, y))
        },
    }
}

/// Message when a search loop runs out of time.
pub open spec fn timed_out_message() -> Seq<char> {
    "loop find image timed out. Could not find image"@
}

/// Whether a search loop that has run `elapsed_secs` seconds has exceeded its
/// `timeout`; a timeout of 0 never expires.
pub open spec fn timed_out(elapsed_secs: u64, timeout: u64) -> bool {
    elapsed_secs > timeout && timeout > 0
}

/// Whether starting a search loop warns that it may never end: its timeout
/// is 0 and warnings are not suppressed.
pub fn loop_timeout_warning(timeout: u64, suppress_warnings: bool) -> (r: bool)
    ensures
        r == (timeout == 0 && !suppress_warnings),
{
    timeout == 0 && !suppress_warnings
}

/// The check at the start of each round of a search loop: fails once the
/// loop has run longer than its timeout.
pub fn check_loop_timeout(elapsed_secs: u64, timeout: u64) -> (r: Result<(), AutoGuiError>)
    ensures
        r is Ok <==> !timed_out(elapsed_secs, timeout),
        r is Ok <==> (elapsed_secs <= timeout || timeout == 0),
        r matches Err(e) ==> is_image_error(e, timed_out_message()),
{
    if elapsed_secs > timeout && timeout > 0 {
        Err(image_processing_error("loop find image timed out. Could not find image"))
    } else {
        Ok(())
    }
}

/// What a search loop does next.
pub enum LoopStep<T> {
    /// Run one more search.
    Search,
    /// Stop and return this outcome.
    Finish(Result<Option<T>, AutoGuiError>),
}

/// One decision of a search loop, taken at the start of each round: `last`
/// is the outcome of the previous search (`None` before the first one) and
/// `elapsed_secs` the time the loop has run. A match or an error ends the
/// loop with that outcome; otherwise the loop times out after `timeout`
/// seconds (never, for 0) or searches again.
pub fn search_loop_step<T>(
    elapsed_secs: u64,
    timeout: u64,
    last: Option<Result<Option<T>, AutoGuiError>>,
) -> (r: LoopStep<T>)
    ensures
        last matches Some(Ok(Some(v))) ==> r == LoopStep::Finish(Ok::<Option<T>, AutoGuiError>(Some(v))),
        last matches Some(Err(e)) ==> r == LoopStep::<T>::Finish(Err(e)),
        (last is None || last matches Some(Ok(None))) ==> {
            &&& timed_out(elapsed_secs, timeout) ==> (r matches LoopStep::Finish(Err(e))
                && is_image_error(e, timed_out_message()))
            &&& !timed_out(elapsed_secs, timeout) ==> r is Search
            &&& (timeout > 0 && elapsed_secs > timeout) ==> (r matches LoopStep::Finish(Err(_)))
            &&& (timeout == 0 || elapsed_secs <= timeout) ==> r is Search
        },
{
    match last {
        Some(Ok(Some(found))) => LoopStep::Finish(Ok(Some(found))),
        Some(Err(e)) => LoopStep::Finish(Err(e)),
        _ => match check_loop_timeout(elapsed_secs, timeout) {
            Ok(()) => LoopStep::Search,
            Err(e) => LoopStep::Finish(Err(e)),
        },
    }
}

/// A search loop with timeout 0 never times out, however long it runs
/// (hence the warning that it may loop forever).
pub proof fn lemma_zero_timeout_never_expires(elapsed_secs: u64)
    ensures
        !timed_out(elapsed_secs, 0),
{
}

/// Once a search loop has timed out, it stays timed out as time goes on.
pub proof fn lemma_timeout_is_final(elapsed_secs: u64, later_secs: u64, timeout: u64)
    requires
        elapsed_secs <= later_secs,
        timed_out(elapsed_secs, timeout),
    ensures
        timed_out(later_secs, timeout),
{
}

/// A search that reports matches reports at least one, so the mouse always
/// has a target after a successful search: centring keeps every match.
pub proof fn lemma_found_matches_give_target<S, F, C>(
    template: Template<S, F>,
    found: Seq<(u32, u32, C)>,
    centered: Seq<(u32, u32, C)>,
)
    requires
        found.len() > 0,
        centered_locations(template, found, centered),
    ensures
        centered.len() > 0,
        centered[0].0 == center_x(template, found[0].0),
        centered[0].1 == center_y(template, found[0].1),
{
    let _ = centered[0];
}

/// The screen position of a found template is the middle of the template's
/// box on screen: the box starts at the found position shifted by the search
/// region's corner, and the centre lies half the template's width to the
/// right and half its height below that corner.
pub proof fn lemma_center_is_middle_of_found_box<S, F>(template: Template<S, F>, x: u32, y: u32)
    ensures
        center_x(template, x) - (x + template.region.0) == template.width / 2,
        center_y(template, y) - (y + template.region.1) == template.height / 2,
        template.width > 0 ==> x + template.region.0 <= center_x(template, x) < x
            + template.region.0 + template.width,
        template.height > 0 ==> y + template.region.1 <= center_y(template, y) < y
            + template.region.1 + template.height,
        2 * (center_x(template, x) - (x + template.region.0)) <= template.width <= 2 * (
        center_x(template, x) - (x + template.region.0)) + 1,
        2 * (center_y(template, y) - (y + template.region.1)) <= template.height <= 2 * (
        center_y(template, y) - (y + template.region.1)) + 1,
{
}

/// The horizontal centre depends on the template's width and the region's
/// left edge only, the vertical centre on its height and the region's top
/// edge only.
pub proof fn lemma_center_axes_are_independent<S, F>(
    a: Template<S, F>,
    b: Template<S, F>,
    x: u32,
    y: u32,
)
    ensures
        a.width == b.width && a.region.0 == b.region.0 ==> center_x(a, x) == center_x(b, x),
        a.height == b.height && a.region.1 == b.region.1 ==> center_y(a, y) == center_y(b, y),
{
}

/// A search loop times out exactly when its timeout is positive and the loop
/// has run longer than it: never before its own deadline, always after it.
pub proof fn lemma_timeout_rule(elapsed_secs: u64, timeout: u64)
    ensures
        timed_out(elapsed_secs, timeout) <==> (timeout > 0 && elapsed_secs > timeout),
        timeout > 0 && elapsed_secs <= timeout ==> !timed_out(elapsed_secs, timeout),
        timeout > 0 && elapsed_secs > timeout ==> timed_out(elapsed_secs, timeout),
{
}

} // verus!
