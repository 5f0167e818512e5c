use vstd::prelude::*;
use crate::errors::{AutoGuiError, is_image_error, image_processing_error};

verus! {

/// The template-matching algorithm to run.
#[derive(Debug, Clone, Copy, PartialEq, Eq, Structural)]
pub enum MatchMode {
    /// Normalized cross-correlation on segmented templates.
    Segmented,
    /// Normalized cross-correlation computed in the frequency domain.
    FFT,
}

/// Data prepared from a template image for one of the matching algorithms;
/// `S` is the segmented form and `F` the frequency-domain form.
#[derive(Debug, Clone)]
pub enum PreparedData<S, F> {
    Segmented(S),
    FFT(F),
    NotPrepared,
}

/// A stored template: its prepared data, the screen region
/// `(x, y, width, height)` searched for it, the algorithm chosen for it and
/// the template's own size.
#[derive(Debug)]
pub struct Template<S, F> {
    pub prepared_data: PreparedData<S, F>,
    pub region: (u32, u32, u32, u32),
    pub match_mode: Option<MatchMode>,
    pub width: u32,
    pub height: u32,
}

/// The prepared data that a search hands to the chosen algorithm.
pub enum MatchInput<'a, S, F> {
    Segmented(&'a S),
    FFT(&'a F),
}

/// Message when a template has no matching algorithm chosen.
pub open spec fn no_template_message() -> Seq<char> {
    "No template chosen and no template data prepared. Please run load_and_prepare_template before searching image on screen"@
}

/// Message when the chosen algorithm does not fit the prepared data.
pub open spec fn mismatch_message() -> Seq<char> {
    "error in prepared data type. Matchmode does not match prepare data type"@
}

/// Whether the prepared data is the kind that `mode` works on.
pub open spec fn data_fits_mode<S, F>(data: PreparedData<S, F>, mode: MatchMode) -> bool {
    match mode {
        MatchMode::Segmented => data is Segmented,
        MatchMode::FFT => data is FFT,
    }
}

/// Whether a search can run on `template`: an algorithm is chosen and the
/// prepared data is of the kind it works on.
pub open spec fn ready_for_search<S, F>(template: Template<S, F>) -> bool {
    template.match_mode matches Some(m) && data_fits_mode(template.prepared_data, m)
}

impl<S, F> Template<S, F> {
    /// A template with the given prepared data, search region, algorithm and
    /// size `(width, height)`.
    pub fn new(
        prepared_data: PreparedData<S, F>,
        region: (u32, u32, u32, u32),
        match_mode: MatchMode,
        dimension: (u32, u32),
    ) -> (r: Self)
        ensures
            r.prepared_data == prepared_data,
            r.region == region,
            r.match_mode == Some(match_mode),
            r.width == dimension.0,
            r.height == dimension.1,
    {
        Template {
            prepared_data,
            region,
            match_mode: Some(match_mode),
            width: dimension.0,
            height: dimension.1,
        }
    }

    /// Chooses what a search runs: the algorithm of the template together with
    /// its prepared data. Fails when no algorithm is chosen, or when the
    /// prepared data is not the kind the algorithm works on.
    pub fn match_input(&self) -> (r: Result<MatchInput<'_, S, F>, AutoGuiError>)
        ensures
            r is Ok <==> ready_for_search(*self),
            self.match_mode is None ==> r is Err && is_image_error(r->Err_0, no_template_message()),
            self.match_mode matches Some(m) && !data_fits_mode(self.prepared_data, m) ==> r is Err
                && is_image_error(r->Err_0, mismatch_message()),
            self.match_mode == Some(MatchMode::Segmented) && self.prepared_data is Segmented ==> (r
                matches Ok(MatchInput::Segmented(d)) && *d == self.prepared_data->Segmented_0),
            self.match_mode == Some(MatchMode::FFT) && self.prepared_data is FFT ==> (r matches Ok(
                MatchInput::FFT(d),
            ) && *d == self.prepared_data->FFT_0),
    {
        match self.match_mode {
            None => Err(
                image_processing_error(
                    "No template chosen and no template data prepared. Please run load_and_prepare_template before searching image on screen",
                ),
            ),
            Some(MatchMode::FFT) => match &self.prepared_data {
                PreparedData::FFT(data) => Ok(MatchInput::FFT(data)),
                _ => Err(
                    image_processing_error(
                        "error in prepared data type. Matchmode does not match prepare data type",
                    ),
                ),
            },
            Some(MatchMode::Segmented) => match &self.prepared_data {
                PreparedData::Segmented(data) => Ok(MatchInput::Segmented(data)),
                _ => Err(
                    image_processing_error(
                        "error in prepared data type. Matchmode does not match prepare data type",
                    ),
                ),
            },
        }
    }
}

/// A template built with data of the kind its algorithm works on is ready
/// for a search: the check before a search never refuses it.
pub proof fn lemma_new_template_ready<S, F>(
    prepared_data: PreparedData<S, F>,
    region: (u32, u32, u32, u32),
    match_mode: MatchMode,
    dimension: (u32, u32),
    template: Template<S, F>,
)
    requires
        data_fits_mode(prepared_data, match_mode),
        template.prepared_data == prepared_data,
        template.region == region,
        template.match_mode == Some(match_mode),
        template.width == dimension.0,
        template.height == dimension.1,
    ensures
        ready_for_search(template),
{
}

} // verus!
