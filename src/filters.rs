use vstd::prelude::*;
use vstd::string::StringSliceAdditionalSpecFns;
use crate::catalog::ShareableContent;
use crate::source_id::{SourceSelector, parse_source_id, parse_source_spec};
use crate::types::{ContentFilterType, SCError};

verus! {

/// The ways of building a filter, in the order they are tried.
#[derive(Debug, Clone, Copy, PartialEq, Eq, Structural)]
pub enum FilterTier {
    /// The live object of the requested source.
    Exact,
    /// The live object of the first source of the same kind.
    FallbackObject,
    /// A filter that captures the whole desktop.
    Generic,
}

/// A capture scope built by the capture service, named by an opaque handle.
#[derive(Debug, Clone, Copy, PartialEq, Eq, Structural)]
pub struct ContentFilter {
    pub handle: u64,
    pub filter_type: ContentFilterType,
    pub tier: FilterTier,
    pub valid: bool,
}

impl ContentFilter {
    pub open spec fn spec_is_valid(&self) -> bool {
        self.valid && self.handle != 0
    }

    /// The handle, or 0 once the filter has been invalidated.
    pub fn get_filter_ptr(&self) -> (r: u64)
        ensures
            r == if self.valid {
                self.handle
            } else {
                0
            },
    {
        if self.valid {
            self.handle
        } else {
            0
        }
    }

    pub fn is_valid(&self) -> (r: bool)
        ensures
            r == self.spec_is_valid(),
    {
        self.valid && self.handle != 0
    }

    pub fn get_filter_type(&self) -> (r: ContentFilterType)
        ensures
            r == self.filter_type,
    {
        self.filter_type
    }

    pub fn get_tier(&self) -> (r: FilterTier)
        ensures
            r == self.tier,
    {
        self.tier
    }

    /// Marks the filter unusable; the object itself belongs to the system.
    pub fn invalidate(&mut self)
        ensures
            *final(self) == (ContentFilter { valid: false, ..*old(self) }),
    {
        self.valid = false;
    }
}

/// What the filter chain asks for next.
#[derive(Debug)]
pub enum FilterStep {
    /// Try to build a filter of the given scope in the given way.
    Attempt(FilterTier, ContentFilterType),
    /// The chain is over.
    Done(Result<ContentFilter, SCError>),
}

/// Number of tiers of the chain.
pub const TIER_COUNT: u8 = 3;

pub open spec fn tier_at(i: u8) -> FilterTier {
    if i == 0 {
        FilterTier::Exact
    } else if i == 1 {
        FilterTier::FallbackObject
    } else {
        FilterTier::Generic
    }
}

/// The ordered attempts at building a filter for one source.
#[derive(Debug)]
pub struct FilterChain {
    /// Scope of the exact tier.
    pub exact: ContentFilterType,
    /// Scope of the fallback-object tier.
    pub fallback: ContentFilterType,
    /// Whether the requested source is in the catalog; if not, no tier applies.
    pub eligible: bool,
    /// Position of the next tier to try; `TIER_COUNT` once all have failed.
    pub next_tier: u8,
    /// The filter of the tier that succeeded.
    pub built: Option<ContentFilter>,
}

impl FilterChain {
    pub open spec fn well_formed(&self) -> bool {
        self.next_tier <= TIER_COUNT && (self.built is Some ==> self.built->0.spec_is_valid())
    }

    pub open spec fn target_at(&self, i: u8) -> ContentFilterType {
        if i == 0 {
            self.exact
        } else if i == 1 {
            self.fallback
        } else {
            ContentFilterType::Desktop
        }
    }

    /// What the chain asks for in its present state: the filter once one is
    /// built; a failure when the source is not in the catalog or every tier
    /// has failed; otherwise the next tier.
    pub open spec fn spec_step(&self) -> FilterStep {
        match self.built {
            Some(f) => FilterStep::Done(Ok(f)),
            None => if !self.eligible || self.next_tier >= TIER_COUNT {
                FilterStep::Done(Err(SCError::FilterCreationFailed))
            } else {
                FilterStep::Attempt(tier_at(self.next_tier), self.target_at(self.next_tier))
            },
        }
    }

    pub open spec fn awaits_attempt(&self) -> bool {
        self.built is None && self.eligible && self.next_tier < TIER_COUNT
    }

    pub fn step(&self) -> (r: FilterStep)
        ensures
            r == self.spec_step(),
    {
        match self.built {
            Some(f) => FilterStep::Done(Ok(f)),
            None => {
                if !self.eligible || self.next_tier >= TIER_COUNT {
                    FilterStep::Done(Err(SCError::FilterCreationFailed))
                } else {
                    let tier = if self.next_tier == 0 {
                        FilterTier::Exact
                    } else if self.next_tier == 1 {
                        FilterTier::FallbackObject
                    } else {
                        FilterTier::Generic
                    };
                    let target = if self.next_tier == 0 {
                        self.exact
                    } else if self.next_tier == 1 {
                        self.fallback
                    } else {
                        ContentFilterType::Desktop
                    };
                    FilterStep::Attempt(tier, target)
                }
            },
        }
    }

    /// Takes the outcome of the attempt that `step` asked for: the handle of
    /// the filter built, or `None` (or a null handle) where it failed. A
    /// success ends the chain; a failure moves on to the next tier.
    pub fn report(&mut self, handle: Option<u64>)
        requires
            old(self).well_formed(),
            old(self).awaits_attempt(),
        ensures
            final(self).well_formed(),
            final(self).exact == old(self).exact,
            final(self).fallback == old(self).fallback,
            final(self).eligible == old(self).eligible,
            match handle {
                Some(h) if h != 0 => {
                    &&& final(self).next_tier == old(self).next_tier
                    &&& final(self).built == Some(
                        ContentFilter {
                            handle: h,
                            filter_type: old(self).target_at(old(self).next_tier),
                            tier: tier_at(old(self).next_tier),
                            valid: true,
                        },
                    )
                },
                _ => {
                    &&& final(self).next_tier == old(self).next_tier + 1
                    &&& final(self).built is None
                },
            },
    {
        match handle {
            Some(h) if h != 0 => {
                let tier = if self.next_tier == 0 {
                    FilterTier::Exact
                } else if self.next_tier == 1 {
                    FilterTier::FallbackObject
                } else {
                    FilterTier::Generic
                };
                let filter_type = if self.next_tier == 0 {
                    self.exact
                } else if self.next_tier == 1 {
                    self.fallback
                } else {
                    ContentFilterType::Desktop
                };
                self.built = Some(ContentFilter { handle: h, filter_type, tier, valid: true });
            },
            _ => {
                self.next_tier = self.next_tier + 1;
            },
        }
    }
}

/// Builds the filter chains of displays, windows and the desktop.
pub struct ContentFilterFactory;

impl ContentFilterFactory {
    /// The chain for display `display_id`: its own object, then the first
    /// display of the catalog, then the whole desktop. A display that is
    /// not in the catalog fails at once.
    pub fn create_display_filter(catalog: &ShareableContent, display_id: u32) -> (r: FilterChain)
        requires
            catalog.well_formed(),
        ensures
            r.well_formed(),
            r.exact == ContentFilterType::Display(display_id),
            r.fallback == ContentFilterType::Display(catalog.displays@[0].id),
            r.eligible == catalog.has_display(display_id),
            r.next_tier == 0,
            r.built is None,
    {
        let eligible = catalog.find_display_by_id(display_id).is_some();
        FilterChain {
            exact: ContentFilterType::Display(display_id),
            fallback: ContentFilterType::Display(catalog.displays[0].id),
            eligible,
            next_tier: 0,
            built: None,
        }
    }

    /// The chain for window `window_id`: its own object, then the first
    /// window of the catalog, then the whole desktop. A window that is not
    /// in the catalog fails at once.
    pub fn create_window_filter(catalog: &ShareableContent, window_id: u32) -> (r: FilterChain)
        ensures
            r.well_formed(),
            r.exact == ContentFilterType::Window(window_id),
            r.eligible == catalog.has_window(window_id),
            r.eligible ==> r.fallback == ContentFilterType::Window(catalog.windows@[0].id),
            r.next_tier == 0,
            r.built is None,
    {
        let eligible = catalog.find_window_by_id(window_id).is_some();
        let fallback = if catalog.windows.len() > 0 {
            ContentFilterType::Window(catalog.windows[0].id)
        } else {
            ContentFilterType::Window(window_id)
        };
        FilterChain {
            exact: ContentFilterType::Window(window_id),
            fallback,
            eligible,
            next_tier: 0,
            built: None,
        }
    }

    /// The chain for a source named `display:<id>` or `window:<id>`; any
    /// other text is a configuration error.
    pub fn create_for_source(catalog: &ShareableContent, source: &str) -> (r: Result<
        FilterChain,
        SCError,
    >)
        requires
            catalog.well_formed(),
        ensures
            r matches Ok(c) ==> c.well_formed() && c.next_tier == 0 && c.built is None,
            match parse_source_spec(source.spec_bytes()) {
                None => r matches Err(e) && e is InvalidConfiguration,
                Some(SourceSelector::Display(id)) => r matches Ok(c) && c.exact
                    == ContentFilterType::Display(id) && c.eligible == catalog.has_display(id),
                Some(SourceSelector::Window(id)) => r matches Ok(c) && c.exact
                    == ContentFilterType::Window(id) && c.eligible == catalog.has_window(id),
            },
    {
        match parse_source_id(source) {
            Ok(SourceSelector::Display(id)) => Ok(Self::create_display_filter(catalog, id)),
            Ok(SourceSelector::Window(id)) => Ok(Self::create_window_filter(catalog, id)),
            Err(e) => Err(e),
        }
    }

    /// The chain for the whole desktop: only the generic tier.
    pub fn create_desktop_filter() -> (r: FilterChain)
        ensures
            r.well_formed(),
            r.exact == ContentFilterType::Desktop,
            r.fallback == ContentFilterType::Desktop,
            r.eligible,
            r.next_tier == TIER_COUNT - 1,
            r.built is None,
    {
        FilterChain {
            exact: ContentFilterType::Desktop,
            fallback: ContentFilterType::Desktop,
            eligible: true,
            next_tier: TIER_COUNT - 1,
            built: None,
        }
    }
}

} // verus!
