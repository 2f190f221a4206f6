//! Dashboard settings: colour themes and the region and sector filters.

use vstd::prelude::*;

use crate::model::{Region, Sector};
use crate::text::text_equals;

verus! {

/// A colour theme of the dashboard.
#[derive(Debug, Clone, Copy, PartialEq, Eq, Structural)]
pub enum Theme {
    Dark,
    Light,
    Sepia,
}

impl Theme {
    /// The theme's identifier, as stored in the page.
    pub open spec fn spec_as_str(self) -> Seq<char> {
        match self {
            Theme::Dark => "dark"@,
            Theme::Light => "light"@,
            Theme::Sepia => "sepia"@,
        }
    }

    /// Every theme.
    pub fn all() -> (r: [Theme; 3])
        ensures
            r@ == seq![Theme::Dark, Theme::Light, Theme::Sepia],
    {
        [Theme::Dark, Theme::Light, Theme::Sepia]
    }

    pub fn as_str(self) -> (r: &'static str)
        ensures
            r@ == self.spec_as_str(),
    {
        match self {
            Theme::Dark => "dark",
            Theme::Light => "light",
            Theme::Sepia => "sepia",
        }
    }

    /// The theme's name in the menu.
    pub fn label(self) -> (r: &'static str)
        ensures
            r@ == (match self {
                Theme::Dark => "Dark"@,
                Theme::Light => "Light"@,
                Theme::Sepia => "Sepia"@,
            }),
    {
        match self {
            Theme::Dark => "Dark",
            Theme::Light => "Light",
            Theme::Sepia => "Sepia",
        }
    }

    /// The theme with identifier `s`, if any.
    pub fn parse(s: &str) -> (r: Option<Theme>)
        ensures
            r matches Some(t) ==> t.spec_as_str() == s@,
            r is None ==> forall|t: Theme| t.spec_as_str() != s@,
    {
        if text_equals("dark", s) {
            Some(Theme::Dark)
        } else if text_equals("light", s) {
            Some(Theme::Light)
        } else if text_equals("sepia", s) {
            Some(Theme::Sepia)
        } else {
            None
        }
    }
}

impl std::str::FromStr for Theme {
    type Err = ();

    fn from_str(s: &str) -> (r: Result<Theme, ()>)
        ensures
            r matches Ok(t) ==> t.spec_as_str() == s@,
            r is Err ==> forall|t: Theme| t.spec_as_str() != s@,
    {
        match Theme::parse(s) {
            Some(t) => Ok(t),
            None => Err(()),
        }
    }
}

/// Whether `v` holds `x`.
fn holds_region(v: &Vec<Region>, x: Region) -> (r: bool)
    ensures
        r == v@.contains(x),
{
    let mut i: usize = 0;
    while i < v.len()
        invariant
            0 <= i <= v@.len(),
            forall|j: int| 0 <= j < i ==> v@[j] != x,
        decreases v@.len() - i,
    {
        if v[i] == x {
            return true;
        }
        i = i + 1;
    }
    false
}

/// Whether `v` holds `x`.
fn holds_sector(v: &Vec<Sector>, x: Sector) -> (r: bool)
    ensures
        r == v@.contains(x),
{
    let mut i: usize = 0;
    while i < v.len()
        invariant
            0 <= i <= v@.len(),
            forall|j: int| 0 <= j < i ==> v@[j] != x,
        decreases v@.len() - i,
    {
        if v[i] == x {
            return true;
        }
        i = i + 1;
    }
    false
}

/// Whether a row of the given region and sector is shown: nothing is shown
/// while no filter is selected; otherwise an empty selection admits all.
pub fn matches_filters(regions: &Vec<Region>, sectors: &Vec<Sector>, region: Region, sector: Sector) -> (r: bool)
    ensures
        r == (!(regions@.len() == 0 && sectors@.len() == 0) && (regions@.len() == 0 || regions@.contains(
            region,
        )) && (sectors@.len() == 0 || sectors@.contains(sector))),
{
    if regions.len() == 0 && sectors.len() == 0 {
        return false;
    }
    let region_ok = regions.len() == 0 || holds_region(regions, region);
    let sector_ok = sectors.len() == 0 || holds_sector(sectors, sector);
    region_ok && sector_ok
}

} // verus!
