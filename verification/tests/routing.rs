use bamboo::routing::{AppRoute, FinalFantasyRoute, PandaPartyRoute};

#[test]
fn app_routes_have_their_paths() {
    assert_eq!(AppRoute::Home.to_path(), "/");
    assert_eq!(AppRoute::PandaPartyRoot.to_path(), "/pandaparty");
    assert_eq!(AppRoute::PandaParty.to_path(), "/pandaparty/*");
    assert_eq!(AppRoute::FinalFantasyRoot.to_path(), "/ff");
    assert_eq!(AppRoute::FinalFantasy.to_path(), "/ff/*");
    assert_eq!(AppRoute::Login.to_path(), "/login");
}

#[test]
fn app_route_is_written_as_its_path() {
    assert_eq!(AppRoute::Login.to_string(), "/login");
    assert_eq!(AppRoute::Home.to_string(), AppRoute::Home.to_path());
}

#[test]
fn unknown_path_leads_home() {
    assert_eq!(AppRoute::not_found_route(), Some(AppRoute::Home));
}

#[test]
fn final_fantasy_routes_have_their_paths() {
    assert_eq!(FinalFantasyRoute::Crafter.to_path(), "/ff/crafter");
    assert_eq!(FinalFantasyRoute::Fighter.to_path(), "/ff/fighter");
    assert_eq!(FinalFantasyRoute::Fighter.to_string(), "/ff/fighter");
}

#[test]
fn panda_party_routes_have_their_paths() {
    assert_eq!(PandaPartyRoute::Calendar.to_path(), "/pandaparty/calendar");
    assert_eq!(PandaPartyRoute::User.to_path(), "/pandaparty/user");
}
