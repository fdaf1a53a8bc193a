//! The worker's private cache and the route a resynthesis takes through it.
//!
//! Only the worker thread touches the cache, one job at a time. It holds
//! what the last analysis produced and the last vocoder output before
//! effects, so that an effects-only change need not run the vocoder again.
//! `P` is a set of vocoder parameters and `A` an audio buffer.

use vstd::prelude::*;

verus! {

/// What one analysis left behind.
#[derive(Debug, Clone, PartialEq)]
pub struct Analysis<P, A> {
    /// The vocoder parameters of the loaded file.
    pub params: P,
    /// The mono baseline: what is heard with every slider at rest.
    pub baseline: A,
    /// The last vocoder output before effects; `None` while that is the
    /// baseline itself.
    pub synthesized: Option<A>,
    /// The sample rate of the analyzed audio.
    pub sample_rate: u32,
}

/// The worker's cache: empty until an analysis succeeds, and again after a
/// new file was decoded or a job panicked.
#[derive(Debug, Clone, PartialEq)]
pub struct Cache<P, A> {
    pub current: Option<Analysis<P, A>>,
}

/// How a resynthesis request is served.
#[derive(Debug, Clone, Copy, PartialEq, Eq, Structural)]
pub enum Route {
    /// Nothing is cached: the request produces nothing.
    Skip,
    /// The sliders are at rest or bypassed: the baseline goes straight to
    /// the effects chain.
    Baseline,
    /// The parameters are modified, resynthesized, and then go to the
    /// effects chain.
    Vocoder,
}

/// A step of the worker's pipelines that is reported as status.
#[derive(Debug, Clone, Copy, PartialEq, Eq, Structural)]
pub enum Stage {
    Decoding,
    Modifying,
    Synthesizing,
    ApplyingEffects,
}

/// The route of a resynthesis request.
pub open spec fn route_of(ready: bool, bypass: bool, neutral: bool) -> Route {
    if !ready {
        Route::Skip
    } else if bypass || neutral {
        Route::Baseline
    } else {
        Route::Vocoder
    }
}

impl Stage {
    /// The status text of the stage.
    pub open spec fn text(self) -> Seq<char> {
        match self {
            Stage::Decoding => "Decoding..."@,
            Stage::Modifying => "Modifying parameters... (1/3)"@,
            Stage::Synthesizing => "Synthesizing voice... (2/3)"@,
            Stage::ApplyingEffects => "Applying effects... (3/3)"@,
        }
    }

    /// The status text of the stage.
    pub fn label(self) -> (s: &'static str)
        ensures
            s@ == self.text(),
    {
        match self {
            Stage::Decoding => "Decoding...",
            Stage::Modifying => "Modifying parameters... (1/3)",
            Stage::Synthesizing => "Synthesizing voice... (2/3)",
            Stage::ApplyingEffects => "Applying effects... (3/3)",
        }
    }
}

impl Route {
    /// How many stages the route reports: the vocoder route reports all
    /// three, the baseline route only the effects stage.
    pub open spec fn stage_count(self) -> int {
        match self {
            Route::Skip => 0,
            Route::Baseline => 1,
            Route::Vocoder => 3,
        }
    }

    /// The stages that the route reports, in order.
    pub fn stages(self) -> (v: Vec<Stage>)
        ensures
            v@.len() == self.stage_count(),
            self == Route::Baseline ==> v@ == seq![Stage::ApplyingEffects],
            self == Route::Vocoder ==> v@ == seq![
                Stage::Modifying,
                Stage::Synthesizing,
                Stage::ApplyingEffects,
            ],
    {
        let mut v: Vec<Stage> = Vec::new();
        match self {
            Route::Skip => {},
            Route::Baseline => {
                v.push(Stage::ApplyingEffects);
                proof {
                    assert(v@ =~= seq![Stage::ApplyingEffects]);
                }
            },
            Route::Vocoder => {
                v.push(Stage::Modifying);
                v.push(Stage::Synthesizing);
                v.push(Stage::ApplyingEffects);
                proof {
                    assert(v@ =~= seq![
                        Stage::Modifying,
                        Stage::Synthesizing,
                        Stage::ApplyingEffects,
                    ]);
                }
            },
        }
        v
    }
}

impl<P, A> Cache<P, A> {
    /// Whether vocoder parameters are cached.
    pub open spec fn ready(self) -> bool {
        self.current is Some
    }

    /// The buffer that an effects-only pass starts from: the last vocoder
    /// output, or the baseline while there is none.
    pub open spec fn effects_input(self) -> Option<A> {
        match self.current {
            None => None,
            Some(analysis) => match analysis.synthesized {
                Some(audio) => Some(audio),
                None => Some(analysis.baseline),
            },
        }
    }

    /// An empty cache.
    pub fn new() -> (c: Self)
        ensures
            c.current is None,
    {
        Cache { current: None }
    }

    /// Whether vocoder parameters are cached.
    pub fn is_ready(&self) -> (b: bool)
        ensures
            b == self.ready(),
    {
        self.current.is_some()
    }

    /// Empties the cache: a new file was decoded, or a job panicked and what
    /// is cached can no longer be trusted.
    pub fn reset(&mut self)
        ensures
            final(self).current is None,
    {
        self.current = None;
    }

    /// Stores the outcome of a successful analysis. The vocoder output before
    /// effects is the baseline until a resynthesis replaces it.
    pub fn store_analysis(&mut self, params: P, baseline: A, sample_rate: u32)
        ensures
            final(self).current == Some(
                Analysis { params, baseline, synthesized: None, sample_rate },
            ),
    {
        self.current = Some(Analysis { params, baseline, synthesized: None, sample_rate });
    }

    /// Decides how a resynthesis request is served.
    pub fn route(&self, bypass: bool, neutral: bool) -> (r: Route)
        ensures
            r == route_of(self.ready(), bypass, neutral),
    {
        if self.current.is_none() {
            Route::Skip
        } else if bypass || neutral {
            Route::Baseline
        } else {
            Route::Vocoder
        }
    }

    /// The baseline route was taken: the vocoder output before effects is
    /// the baseline again.
    pub fn stage_baseline(&mut self)
        ensures
            match old(self).current {
                None => final(self).current is None,
                Some(analysis) => final(self).current == Some(
                    Analysis { synthesized: None, ..analysis },
                ),
            },
    {
        let before = self.current.take();
        match before {
            None => {},
            Some(analysis) => {
                self.current = Some(
                    Analysis {
                        params: analysis.params,
                        baseline: analysis.baseline,
                        synthesized: None,
                        sample_rate: analysis.sample_rate,
                    },
                );
            },
        }
    }

    /// Takes what the vocoder returned. Its output replaces the cached
    /// vocoder output; its failure leaves the cache as it was and is handed
    /// back for reporting. Output that arrives while nothing is cached is
    /// dropped.
    pub fn accept_synthesis<E>(&mut self, outcome: Result<A, E>) -> (r: Result<(), E>)
        ensures
            match outcome {
                Err(e) => r == Err::<(), E>(e) && *final(self) == *old(self),
                Ok(audio) => r == Ok::<(), E>(()) && match old(self).current {
                    None => final(self).current is None,
                    Some(analysis) => final(self).current == Some(
                        Analysis { synthesized: Some(audio), ..analysis },
                    ),
                },
            },
    {
        match outcome {
            Err(e) => Err(e),
            Ok(audio) => {
                let before = self.current.take();
                match before {
                    None => {},
                    Some(analysis) => {
                        self.current = Some(
                            Analysis {
                                params: analysis.params,
                                baseline: analysis.baseline,
                                synthesized: Some(audio),
                                sample_rate: analysis.sample_rate,
                            },
                        );
                    },
                }
                Ok(())
            },
        }
    }

    /// The cached vocoder parameters.
    pub fn params(&self) -> (p: Option<&P>)
        ensures
            match self.current {
                None => p is None,
                Some(analysis) => p == Some(&analysis.params),
            },
    {
        match &self.current {
            None => None,
            Some(analysis) => Some(&analysis.params),
        }
    }

    /// The cached mono baseline.
    pub fn baseline(&self) -> (a: Option<&A>)
        ensures
            match self.current {
                None => a is None,
                Some(analysis) => a == Some(&analysis.baseline),
            },
    {
        match &self.current {
            None => None,
            Some(analysis) => Some(&analysis.baseline),
        }
    }

    /// The sample rate of the analyzed audio, 0 while nothing is cached.
    pub fn sample_rate(&self) -> (rate: u32)
        ensures
            match self.current {
                None => rate == 0,
                Some(analysis) => rate == analysis.sample_rate,
            },
    {
        match &self.current {
            None => 0,
            Some(analysis) => analysis.sample_rate,
        }
    }

    /// The buffer that an effects-only pass starts from.
    pub fn effects_source(&self) -> (a: Option<&A>)
        ensures
            match self.effects_input() {
                None => a is None,
                Some(audio) => a is Some && *a->0 == audio,
            },
    {
        match &self.current {
            None => None,
            Some(analysis) => match &analysis.synthesized {
                Some(audio) => Some(audio),
                None => Some(&analysis.baseline),
            },
        }
    }
}

} // verus!
