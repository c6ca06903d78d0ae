//! The settings of a run, checked before anything is fetched.

use crate::shorelandsearch::ShoreLandSearchForm;
use crate::sweep::{bucket_count, bucket_form, sweep};
use vstd::prelude::*;

verus! {

/// What a run is started with.
#[derive(Clone, Copy, Debug, PartialEq, Eq, Structural)]
pub struct RunConfig {
    /// The lowest rent of the sweep.
    pub rent_lower: u32,
    /// The first rent beyond the sweep.
    pub rent_upper: u32,
    /// The width of a bucket.
    pub step: u32,
    pub bedrooms: Option<u8>,
    pub bathrooms: Option<u8>,
    pub move_in_year: u32,
    pub move_in_month: u32,
    pub move_in_day: u32,
    /// How many listing requests may be under way at once.
    pub listing_limit: usize,
    /// How many unit page requests may be under way at once.
    pub detail_limit: usize,
}

/// Why a run cannot start.
#[derive(Clone, Copy, Debug, PartialEq, Eq, Structural)]
pub enum ConfigError {
    /// The rent range holds nothing.
    EmptyRange,
    /// The buckets have no width.
    ZeroStep,
    /// The move-in date is no day of the calendar.
    InvalidDate,
    /// A stage may not have a single request under way.
    NoConcurrency,
}

/// Whether `year` has a 29th of February.
pub open spec fn is_leap_year(year: int) -> bool {
    year % 4 == 0 && (year % 100 != 0 || year % 400 == 0)
}

/// The days of a month; none for a month that is none.
pub open spec fn days_in_month(year: int, month: int) -> int {
    if month == 2 {
        if is_leap_year(year) {
            29
        } else {
            28
        }
    } else if month == 4 || month == 6 || month == 9 || month == 11 {
        30
    } else if 1 <= month <= 12 {
        31
    } else {
        0
    }
}

/// Whether the three numbers name a day of the calendar in a year of
/// four digits at most.
pub open spec fn is_date(year: int, month: int, day: int) -> bool {
    1 <= year <= 9999 && 1 <= day <= days_in_month(year, month)
}

/// Decides whether the three numbers name a day of the calendar.
pub fn check_date(year: u32, month: u32, day: u32) -> (r: bool)
    ensures
        r == is_date(year as int, month as int, day as int),
{
    if year < 1 || year > 9999 || day < 1 {
        return false;
    }
    let days: u32 = if month == 2 {
        if year % 4 == 0 && (year % 100 != 0 || year % 400 == 0) {
            29
        } else {
            28
        }
    } else if month == 4 || month == 6 || month == 9 || month == 11 {
        30
    } else if 1 <= month && month <= 12 {
        31
    } else {
        0
    };
    day <= days
}

/// What is wrong with the settings, the range first, then the step, the
/// date and the limits; nothing where a run can start.
pub open spec fn config_error(config: RunConfig) -> Option<ConfigError> {
    if config.rent_upper <= config.rent_lower {
        Some(ConfigError::EmptyRange)
    } else if config.step == 0 {
        Some(ConfigError::ZeroStep)
    } else if !is_date(
        config.move_in_year as int,
        config.move_in_month as int,
        config.move_in_day as int,
    ) {
        Some(ConfigError::InvalidDate)
    } else if config.listing_limit == 0 || config.detail_limit == 0 {
        Some(ConfigError::NoConcurrency)
    } else {
        None
    }
}

impl RunConfig {
    /// Checks the settings.
    pub fn validate(&self) -> (r: Result<(), ConfigError>)
        ensures
            r == match config_error(*self) {
                Some(e) => Err::<(), ConfigError>(e),
                None => Ok::<(), ConfigError>(()),
            },
    {
        if self.rent_upper <= self.rent_lower {
            Err(ConfigError::EmptyRange)
        } else if self.step == 0 {
            Err(ConfigError::ZeroStep)
        } else if !check_date(self.move_in_year, self.move_in_month, self.move_in_day) {
            Err(ConfigError::InvalidDate)
        } else if self.listing_limit == 0 || self.detail_limit == 0 {
            Err(ConfigError::NoConcurrency)
        } else {
            Ok(())
        }
    }

    /// How many forms the sweep of these settings has.
    pub open spec fn form_count(&self) -> int {
        bucket_count(self.rent_lower as int, self.rent_upper as int, self.step as int)
    }

    /// The form of bucket `i` of the sweep of these settings.
    pub open spec fn form(&self, i: int) -> crate::shorelandsearch::FormView {
        bucket_form(
            self.rent_lower,
            self.rent_upper,
            self.step,
            self.bedrooms,
            self.bathrooms,
            self.move_in_year,
            self.move_in_month,
            self.move_in_day,
            i,
        )
    }

    /// The forms of the sweep, once the settings have been checked.
    pub fn forms(&self) -> (r: Result<Vec<ShoreLandSearchForm>, ConfigError>)
        ensures
            match r {
                Ok(forms) => config_error(*self) is None && forms.len() == self.form_count()
                    && forms.len() > 0 && forall|i: int|
                    0 <= i < forms.len() ==> (#[trigger] forms[i])@ == self.form(i),
                Err(e) => config_error(*self) == Some(e),
            },
    {
        match self.validate() {
            Err(e) => Err(e),
            Ok(()) => {
                proof {
                    crate::sweep::lemma_count_bounds(
                        self.rent_lower as int,
                        self.rent_upper as int,
                        self.step as int,
                    );
                }
                Ok(
                    sweep(
                        self.rent_lower,
                        self.rent_upper,
                        self.step,
                        self.bedrooms,
                        self.bathrooms,
                        self.move_in_year,
                        self.move_in_month,
                        self.move_in_day,
                    ),
                )
            },
        }
    }
}

} // verus!
