use coc_client::entities;
use coc_client::models::badge_urls::BadgeUrls;
use coc_client::models::clan::{
    ChatLanguage, Clan, ClanMember, Label, LabelIconUrls, League, LeagueIconUrls, Location, Role,
    WarLeague,
};

fn member(tag: &str, role: Role) -> ClanMember {
    ClanMember {
        tag: String::from(tag),
        name: String::from("player"),
        role,
        exp_level: 100,
        league: League {
            id: 29000022,
            name: String::from("Legend League"),
            icon_urls: LeagueIconUrls {
                small: String::from("s"),
                tiny: String::from("t"),
                medium: Some(String::from("m")),
            },
        },
        trophies: 5000,
        versus_trophies: 3000,
        clan_rank: 1,
        previous_clan_rank: 2,
        donations: 1200,
        donations_received: 800,
    }
}

fn sample_clan() -> Clan {
    Clan {
        tag: String::from("#ABC123"),
        name: String::from("The Order"),
        clan_type: String::from("inviteOnly"),
        description: String::from("a clan"),
        location: Some(Location { id: 32000006, name: String::from("International"), is_country: false }),
        badge_urls: BadgeUrls {
            small: String::from("small.png"),
            large: String::from("large.png"),
            medium: String::from("medium.png"),
        },
        clan_level: 12,
        clan_points: 40000,
        clan_versus_points: 30000,
        required_trophies: 2000,
        war_frequency: String::from("always"),
        war_win_streak: 5,
        war_wins: 300,
        is_war_log_public: true,
        war_league: WarLeague { id: 48000012, name: String::from("Crystal League I") },
        members: 2,
        member_list: vec![member("#P1", Role::Leader), member("#P2", Role::Member)],
        labels: vec![Label {
            id: 56000000,
            name: String::from("Clan Wars"),
            icon_urls: LabelIconUrls { small: String::from("ls"), medium: String::from("lm") },
        }],
        chat_language: ChatLanguage {
            id: 75000000,
            name: String::from("English"),
            language_code: String::from("EN"),
        },
        required_versus_trophies: 1000,
        required_townhall_level: 9,
    }
}

#[test]
fn clan_getters_read_fields() {
    let c = sample_clan();
    assert_eq!(c.tag(), "#ABC123");
    assert_eq!(c.name(), "The Order");
    assert_eq!(c.welcome_type(), "inviteOnly");
    assert_eq!(c.description(), "a clan");
    assert!(c.location().as_ref().is_some_and(|l| l.name() == "International"));
    assert_eq!(c.badge_urls().small, "small.png");
    assert_eq!(c.clan_level(), 12);
    assert_eq!(c.clan_points(), 40000);
    assert_eq!(c.clan_versus_points(), 30000);
    assert_eq!(c.required_trophies(), 2000);
    assert_eq!(c.war_frequency(), "always");
    assert_eq!(c.war_win_streak(), 5);
    assert_eq!(c.war_wins(), 300);
    assert!(c.is_war_log_public());
    assert_eq!(c.war_league().name(), "Crystal League I");
    assert_eq!(c.members(), 2);
    assert_eq!(c.member_list().len(), 2);
    assert_eq!(c.labels().len(), 1);
    assert_eq!(c.chat_language().language_code(), "EN");
    assert_eq!(c.required_versus_trophies(), 1000);
    assert_eq!(c.required_townhall_level(), 9);
}

#[test]
fn member_getters_read_fields() {
    let m = member("#P1", Role::CoLeader);
    assert_eq!(m.tag(), "#P1");
    assert_eq!(m.name(), "player");
    assert_eq!(*m.role(), Role::CoLeader);
    assert_eq!(m.exp_level(), 100);
    assert_eq!(m.league().id(), 29000022);
    assert_eq!(m.league().icon_urls().small(), "s");
    assert_eq!(m.league().icon_urls().tiny(), "t");
    assert_eq!(m.league().icon_urls().medium(), &Some(String::from("m")));
    assert_eq!(m.trophies(), 5000);
    assert_eq!(m.versus_trophies(), 3000);
    assert_eq!(m.clan_rank(), 1);
    assert_eq!(m.previous_clan_rank(), 2);
    assert_eq!(m.donations(), 1200);
    assert_eq!(m.donations_received(), 800);
}

#[test]
fn role_renders_api_names() {
    assert_eq!(Role::Admin.to_string(), "admin");
    assert_eq!(Role::CoLeader.to_string(), "coLeader");
    assert_eq!(Role::Leader.to_string(), "leader");
    assert_eq!(Role::Member.to_string(), "member");
}

#[test]
fn label_and_location_getters() {
    let l = Label {
        id: 1,
        name: String::from("Friendly"),
        icon_urls: LabelIconUrls { small: String::from("a"), medium: String::from("b") },
    };
    assert_eq!(l.id(), 1);
    assert_eq!(l.name(), "Friendly");
    assert_eq!(l.icon_urls().small(), "a");
    assert_eq!(l.icon_urls().medium(), "b");
    let loc = Location { id: 2, name: String::from("Estonia"), is_country: true };
    assert_eq!(loc.id(), 2);
    assert_eq!(loc.name(), "Estonia");
    assert!(loc.is_country());
}

#[test]
fn chat_language_and_war_league_getters() {
    let cl = ChatLanguage { id: 7, name: String::from("English"), language_code: String::from("EN") };
    assert_eq!(cl.id(), 7);
    assert_eq!(cl.name(), "English");
    assert_eq!(cl.language_code(), "EN");
    let wl = WarLeague { id: 9, name: String::from("Gold League") };
    assert_eq!(wl.id(), 9);
    assert_eq!(wl.name(), "Gold League");
}

#[test]
fn wide_clan_variant_getters() {
    let c = entities::clan::Clan {
        tag: String::from("#W1"),
        name: String::from("Wide"),
        clan_type: String::from("open"),
        description: String::from("d"),
        location: None,
        badge_urls: entities::clan::BadgeUrls {
            small: String::from("s"),
            large: String::from("l"),
            medium: String::from("m"),
        },
        clan_level: 3,
        clan_points: 9,
        clan_versus_points: 8,
        required_trophies: 7,
        war_frequency: String::from("never"),
        war_win_streak: 0,
        war_wins: 1,
        is_war_log_public: false,
        war_league: entities::clan::WarLeague { id: 5, name: String::from("w") },
        members: 0,
        member_list: Vec::new(),
        labels: Vec::new(),
        chat_language: entities::clan::ChatLanguage {
            id: 1,
            name: String::from("English"),
            language_code: String::from("EN"),
        },
        required_versus_trophies: 6,
        required_townhall_level: 4,
    };
    assert_eq!(c.tag(), "#W1");
    assert_eq!(c.welcome_type(), "open");
    assert_eq!(c.clan_level(), 3);
    assert_eq!(c.members(), 0);
    assert!(c.location().is_none());
    assert!(!c.is_war_log_public());
    assert_eq!(c.required_townhall_level(), 4);
}
