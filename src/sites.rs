use vstd::prelude::*;

use crate::text::same_text;

verus! {

/// A site that the hash search can report a match on.
#[derive(Clone, Copy, Debug, PartialEq, Eq, Structural)]
pub enum Sites {
    FurAffinity,
    E621,
    Twitter,
    Weasyl,
    Inkbunny,
}

/// The name given to `Sites::from_str` matched no site.
#[derive(Clone, Copy, Debug, PartialEq, Eq, Structural)]
pub struct ParseSitesError;

impl Sites {
    /// The user-facing name of the site, as shown on buttons and stored in
    /// job payloads.
    pub open spec fn name(self) -> Seq<char> {
        match self {
            Sites::FurAffinity => "FurAffinity"@,
            Sites::E621 => "e621"@,
            Sites::Twitter => "Twitter"@,
            Sites::Weasyl => "Weasyl"@,
            Sites::Inkbunny => "Inkbunny"@,
        }
    }

    /// The bot's default site ordering.
    pub open spec fn default_order_spec() -> Seq<Sites> {
        seq![Sites::FurAffinity, Sites::E621, Sites::Twitter]
    }

    /// Get the user-understandable name of the site.
    pub fn as_str(&self) -> (r: &'static str)
        ensures
            r@ == self.name(),
    {
        match *self {
            Sites::FurAffinity => "FurAffinity",
            Sites::E621 => "e621",
            Sites::Twitter => "Twitter",
            Sites::Weasyl => "Weasyl",
            Sites::Inkbunny => "Inkbunny",
        }
    }

    /// The bot's default site ordering: FurAffinity, then e621, then Twitter.
    /// Sites that are not listed keep the order in which they were found.
    pub fn default_order() -> (r: Vec<Sites>)
        ensures
            r@ == Self::default_order_spec(),
    {
        let r = vec![Sites::FurAffinity, Sites::E621, Sites::Twitter];
        assert(r@ =~= Self::default_order_spec());
        r
    }

    /// Reads a site from its user-facing name.
    pub fn parse(s: &str) -> (r: Result<Sites, ParseSitesError>)
        ensures
            r matches Ok(site) ==> site.name() == s@,
            r is Err ==> (forall|site: Sites| site.name() != s@),
    {
        if same_text(s, "FurAffinity") {
            Ok(Sites::FurAffinity)
        } else if same_text(s, "e621") {
            Ok(Sites::E621)
        } else if same_text(s, "Twitter") {
            Ok(Sites::Twitter)
        } else if same_text(s, "Weasyl") {
            Ok(Sites::Weasyl)
        } else if same_text(s, "Inkbunny") {
            Ok(Sites::Inkbunny)
        } else {
            assert forall|site: Sites| site.name() != s@ by {
                match site {
                    Sites::FurAffinity => {},
                    Sites::E621 => {},
                    Sites::Twitter => {},
                    Sites::Weasyl => {},
                    Sites::Inkbunny => {},
                }
            }
            Err(ParseSitesError)
        }
    }
}

impl std::str::FromStr for Sites {
    type Err = ParseSitesError;

    fn from_str(s: &str) -> Result<Sites, ParseSitesError> {
        Sites::parse(s)
    }
}

} // verus!
