//! The pages of the front end and the paths they are reached under.

use vstd::prelude::*;

verus! {

/// The top-level pages. A path ending in `/*` stands for everything below a
/// section; the section's own pages are routes of their own.
#[derive(Clone, Copy, Debug, PartialEq, Eq, Structural)]
pub enum AppRoute {
    Home,
    PandaPartyRoot,
    PandaParty,
    FinalFantasyRoot,
    FinalFantasy,
    Login,
}

impl AppRoute {
    pub open spec fn path(self) -> Seq<char> {
        match self {
            AppRoute::Home => "/"@,
            AppRoute::PandaPartyRoot => "/pandaparty"@,
            AppRoute::PandaParty => "/pandaparty/*"@,
            AppRoute::FinalFantasyRoot => "/ff"@,
            AppRoute::FinalFantasy => "/ff/*"@,
            AppRoute::Login => "/login"@,
        }
    }

    pub fn to_path(&self) -> (path: String)
        ensures
            path@ == self.path(),
    {
        match self {
            AppRoute::Home => "/",
            AppRoute::PandaPartyRoot => "/pandaparty",
            AppRoute::PandaParty => "/pandaparty/*",
            AppRoute::FinalFantasyRoot => "/ff",
            AppRoute::FinalFantasy => "/ff/*",
            AppRoute::Login => "/login",
        }.to_owned()
    }

    /// A route is written as its path.
    pub fn to_string(&self) -> (text: String)
        ensures
            text@ == self.path(),
    {
        self.to_path()
    }

    /// The page shown for a path that belongs to no route.
    pub fn not_found_route() -> (route: Option<Self>)
        ensures
            route == Some(AppRoute::Home),
    {
        Some(AppRoute::Home)
    }
}

/// The pages of the Final Fantasy section.
#[derive(Clone, Copy, Debug, PartialEq, Eq, Structural)]
pub enum FinalFantasyRoute {
    Crafter,
    Fighter,
}

impl FinalFantasyRoute {
    pub open spec fn path(self) -> Seq<char> {
        match self {
            FinalFantasyRoute::Crafter => "/ff/crafter"@,
            FinalFantasyRoute::Fighter => "/ff/fighter"@,
        }
    }

    pub fn to_path(&self) -> (path: String)
        ensures
            path@ == self.path(),
    {
        match self {
            FinalFantasyRoute::Crafter => "/ff/crafter",
            FinalFantasyRoute::Fighter => "/ff/fighter",
        }.to_owned()
    }

    /// A route is written as its path.
    pub fn to_string(&self) -> (text: String)
        ensures
            text@ == self.path(),
    {
        self.to_path()
    }
}

/// The pages of the party section.
#[derive(Clone, Copy, Debug, PartialEq, Eq, Structural)]
pub enum PandaPartyRoute {
    Calendar,
    User,
}

impl PandaPartyRoute {
    pub open spec fn path(self) -> Seq<char> {
        match self {
            PandaPartyRoute::Calendar => "/pandaparty/calendar"@,
            PandaPartyRoute::User => "/pandaparty/user"@,
        }
    }

    pub fn to_path(&self) -> (path: String)
        ensures
            path@ == self.path(),
    {
        match self {
            PandaPartyRoute::Calendar => "/pandaparty/calendar",
            PandaPartyRoute::User => "/pandaparty/user",
        }.to_owned()
    }
}

} // verus!
