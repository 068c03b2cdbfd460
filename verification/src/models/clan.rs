//! Typed record of a clan as the game API returns it, with the member
//! roster, labels, league and location details.

use vstd::prelude::*;

use crate::models::badge_urls::BadgeUrls;

verus! {

/// A clan profile.
pub struct Clan {
    pub tag: String,
    pub name: String,
    pub clan_type: String,
    pub description: String,
    pub location: Option<Location>,
    pub badge_urls: BadgeUrls,
    pub clan_level: i8,
    pub clan_points: i32,
    pub clan_versus_points: i32,
    pub required_trophies: i32,
    pub war_frequency: String,
    pub war_win_streak: i32,
    pub war_wins: i32,
    pub is_war_log_public: bool,
    pub war_league: WarLeague,
    pub members: i32,
    pub member_list: Vec<ClanMember>,
    pub labels: Vec<Label>,
    pub chat_language: ChatLanguage,
    pub required_versus_trophies: i32,
    pub required_townhall_level: i8,
}

/// The chat language configured for a clan.
pub struct ChatLanguage {
    pub id: i32,
    pub name: String,
    pub language_code: String,
}

/// A label a clan advertises.
pub struct Label {
    pub id: i32,
    pub name: String,
    pub icon_urls: LabelIconUrls,
}

/// Icon URLs of a label.
pub struct LabelIconUrls {
    pub small: String,
    pub medium: String,
}

/// A geographic location a clan is registered in.
pub struct Location {
    pub id: i32,
    pub name: String,
    pub is_country: bool,
}

/// One member of the clan roster.
pub struct ClanMember {
    pub tag: String,
    pub name: String,
    pub role: Role,
    pub exp_level: i32,
    pub league: League,
    pub trophies: i32,
    pub versus_trophies: i32,
    pub clan_rank: i32,
    pub previous_clan_rank: i32,
    pub donations: i32,
    pub donations_received: i32,
}

/// The trophy league of a member.
pub struct League {
    pub id: i32,
    pub name: String,
    pub icon_urls: LeagueIconUrls,
}

/// Icon URLs of a league.
pub struct LeagueIconUrls {
    pub small: String,
    pub tiny: String,
    pub medium: Option<String>,
}

/// The war league of a clan.
pub struct WarLeague {
    pub id: i32,
    pub name: String,
}

/// A member's role in the clan.
#[derive(Clone, Copy, Debug, PartialEq, Eq, Structural)]
pub enum Role {
    Admin,
    CoLeader,
    Leader,
    Member,
}

impl Clan {
    pub fn tag(&self) -> (r: &str)
        ensures
            r@ == self.tag@,
    {
        self.tag.as_str()
    }

    pub fn name(&self) -> (r: &str)
        ensures
            r@ == self.name@,
    {
        self.name.as_str()
    }

    pub fn welcome_type(&self) -> (r: &str)
        ensures
            r@ == self.clan_type@,
    {
        self.clan_type.as_str()
    }

    pub fn description(&self) -> (r: &str)
        ensures
            r@ == self.description@,
    {
        self.description.as_str()
    }

    pub fn location(&self) -> (r: &Option<Location>)
        ensures
            *r == self.location,
    {
        &self.location
    }

    pub fn badge_urls(&self) -> (r: &BadgeUrls)
        ensures
            *r == self.badge_urls,
    {
        &self.badge_urls
    }

    pub fn clan_level(&self) -> (r: i8)
        ensures
            r == self.clan_level,
    {
        self.clan_level
    }

    pub fn clan_points(&self) -> (r: i32)
        ensures
            r == self.clan_points,
    {
        self.clan_points
    }

    pub fn clan_versus_points(&self) -> (r: i32)
        ensures
            r == self.clan_versus_points,
    {
        self.clan_versus_points
    }

    pub fn required_trophies(&self) -> (r: i32)
        ensures
            r == self.required_trophies,
    {
        self.required_trophies
    }

    pub fn war_frequency(&self) -> (r: &str)
        ensures
            r@ == self.war_frequency@,
    {
        self.war_frequency.as_str()
    }

    pub fn war_win_streak(&self) -> (r: i32)
        ensures
            r == self.war_win_streak,
    {
        self.war_win_streak
    }

    pub fn war_wins(&self) -> (r: i32)
        ensures
            r == self.war_wins,
    {
        self.war_wins
    }

    pub fn is_war_log_public(&self) -> (r: bool)
        ensures
            r == self.is_war_log_public,
    {
        self.is_war_log_public
    }

    pub fn war_league(&self) -> (r: &WarLeague)
        ensures
            *r == self.war_league,
    {
        &self.war_league
    }

    pub fn members(&self) -> (r: i32)
        ensures
            r == self.members,
    {
        self.members
    }

    pub fn member_list(&self) -> (r: &Vec<ClanMember>)
        ensures
            *r == self.member_list,
    {
        &self.member_list
    }

    pub fn labels(&self) -> (r: &Vec<Label>)
        ensures
            *r == self.labels,
    {
        &self.labels
    }

    pub fn chat_language(&self) -> (r: &ChatLanguage)
        ensures
            *r == self.chat_language,
    {
        &self.chat_language
    }

    pub fn required_versus_trophies(&self) -> (r: i32)
        ensures
            r == self.required_versus_trophies,
    {
        self.required_versus_trophies
    }

    pub fn required_townhall_level(&self) -> (r: i8)
        ensures
            r == self.required_townhall_level,
    {
        self.required_townhall_level
    }
}

impl Role {
    pub fn to_string(&self) -> (r: &str)
        ensures
            match self {
                Role::Admin => r@ == "admin"@,
                Role::CoLeader => r@ == "coLeader"@,
                Role::Leader => r@ == "leader"@,
                Role::Member => r@ == "member"@,
            },
    {
        match self {
            Role::Admin => "admin",
            Role::CoLeader => "coLeader",
            Role::Leader => "leader",
            Role::Member => "member",
        }
    }
}

impl WarLeague {
    pub fn id(&self) -> (r: i32)
        ensures
            r == self.id,
    {
        self.id
    }

    pub fn name(&self) -> (r: &str)
        ensures
            r@ == self.name@,
    {
        self.name.as_str()
    }
}

impl LeagueIconUrls {
    pub fn small(&self) -> (r: &str)
        ensures
            r@ == self.small@,
    {
        self.small.as_str()
    }

    pub fn tiny(&self) -> (r: &str)
        ensures
            r@ == self.tiny@,
    {
        self.tiny.as_str()
    }

    pub fn medium(&self) -> (r: &Option<String>)
        ensures
            *r == self.medium,
    {
        &self.medium
    }
}

impl League {
    pub fn id(&self) -> (r: i32)
        ensures
            r == self.id,
    {
        self.id
    }

    pub fn name(&self) -> (r: &str)
        ensures
            r@ == self.name@,
    {
        self.name.as_str()
    }

    pub fn icon_urls(&self) -> (r: &LeagueIconUrls)
        ensures
            *r == self.icon_urls,
    {
        &self.icon_urls
    }
}

impl ClanMember {
    pub fn tag(&self) -> (r: &str)
        ensures
            r@ == self.tag@,
    {
        self.tag.as_str()
    }

    pub fn name(&self) -> (r: &str)
        ensures
            r@ == self.name@,
    {
        self.name.as_str()
    }

    pub fn role(&self) -> (r: &Role)
        ensures
            *r == self.role,
    {
        &self.role
    }

    pub fn exp_level(&self) -> (r: i32)
        ensures
            r == self.exp_level,
    {
        self.exp_level
    }

    pub fn league(&self) -> (r: &League)
        ensures
            *r == self.league,
    {
        &self.league
    }

    pub fn trophies(&self) -> (r: i32)
        ensures
            r == self.trophies,
    {
        self.trophies
    }

    pub fn versus_trophies(&self) -> (r: i32)
        ensures
            r == self.versus_trophies,
    {
        self.versus_trophies
    }

    pub fn clan_rank(&self) -> (r: i32)
        ensures
            r == self.clan_rank,
    {
        self.clan_rank
    }

    pub fn previous_clan_rank(&self) -> (r: i32)
        ensures
            r == self.previous_clan_rank,
    {
        self.previous_clan_rank
    }

    pub fn donations(&self) -> (r: i32)
        ensures
            r == self.donations,
    {
        self.donations
    }

    pub fn donations_received(&self) -> (r: i32)
        ensures
            r == self.donations_received,
    {
        self.donations_received
    }
}

impl Location {
    pub fn id(&self) -> (r: i32)
        ensures
            r == self.id,
    {
        self.id
    }

    pub fn name(&self) -> (r: &str)
        ensures
            r@ == self.name@,
    {
        self.name.as_str()
    }

    pub fn is_country(&self) -> (r: bool)
        ensures
            r == self.is_country,
    {
        self.is_country
    }
}

impl LabelIconUrls {
    pub fn small(&self) -> (r: &str)
        ensures
            r@ == self.small@,
    {
        self.small.as_str()
    }

    pub fn medium(&self) -> (r: &str)
        ensures
            r@ == self.medium@,
    {
        self.medium.as_str()
    }
}

impl Label {
    pub fn id(&self) -> (r: i32)
        ensures
            r == self.id,
    {
        self.id
    }

    pub fn name(&self) -> (r: &str)
        ensures
            r@ == self.name@,
    {
        self.name.as_str()
    }

    pub fn icon_urls(&self) -> (r: &LabelIconUrls)
        ensures
            *r == self.icon_urls,
    {
        &self.icon_urls
    }
}

impl ChatLanguage {
    pub fn id(&self) -> (r: i32)
        ensures
            r == self.id,
    {
        self.id
    }

    pub fn name(&self) -> (r: &str)
        ensures
            r@ == self.name@,
    {
        self.name.as_str()
    }

    pub fn language_code(&self) -> (r: &str)
        ensures
            r@ == self.language_code@,
    {
        self.language_code.as_str()
    }
}

} // verus!
