//! Wide-integer variant of the clan record: the same shape with 64-bit
//! numeric fields and its own badge record.

use vstd::prelude::*;

verus! {

/// A clan profile.
pub struct Clan {
    pub tag: String,
    pub name: String,
    pub clan_type: String,
    pub description: String,
    pub location: Option<Location>,
    pub badge_urls: BadgeUrls,
    pub clan_level: i64,
    pub clan_points: i64,
    pub clan_versus_points: i64,
    pub required_trophies: i64,
    pub war_frequency: String,
    pub war_win_streak: i64,
    pub war_wins: i64,
    pub is_war_log_public: bool,
    pub war_league: WarLeague,
    pub members: i64,
    pub member_list: Vec<MemberList>,
    pub labels: Vec<Label>,
    pub chat_language: ChatLanguage,
    pub required_versus_trophies: i64,
    pub required_townhall_level: i64,
}

/// The badge image of a clan in three sizes.
pub struct BadgeUrls {
    pub small: String,
    pub large: String,
    pub medium: String,
}

/// The chat language configured for a clan.
pub struct ChatLanguage {
    pub id: i64,
    pub name: String,
    pub language_code: String,
}

/// A label a clan advertises.
pub struct Label {
    pub id: i64,
    pub name: String,
    pub icon_urls: LabelIconUrls,
}

/// Icon URLs of a label.
pub struct LabelIconUrls {
    pub small: String,
    pub medium: String,
}

/// A geographic location a clan is registered in.
pub struct Location {
    pub id: i64,
    pub name: String,
    pub is_country: bool,
}

/// One member of the clan roster.
pub struct MemberList {
    pub tag: String,
    pub name: String,
    pub role: Role,
    pub exp_level: i64,
    pub league: League,
    pub trophies: i64,
    pub versus_trophies: i64,
    pub clan_rank: i64,
    pub previous_clan_rank: i64,
    pub donations: i64,
    pub donations_received: i64,
}

/// The trophy league of a member.
pub struct League {
    pub id: i64,
    pub name: String,
    pub icon_urls: LeagueIconUrls,
}

/// Icon URLs of a league.
pub struct LeagueIconUrls {
    pub small: String,
    pub tiny: String,
    pub medium: Option<String>,
}

/// The war league of a clan.
pub struct WarLeague {
    pub id: i64,
    pub name: String,
}

/// A member's role in the clan.
#[derive(Clone, Copy, Debug, PartialEq, Eq, Structural)]
pub enum Role {
    Admin,
    CoLeader,
    Leader,
    Member,
}

impl Clan {
    pub fn tag(&self) -> (r: &str)
        ensures
            r@ == self.tag@,
    {
        self.tag.as_str()
    }

    pub fn name(&self) -> (r: &str)
        ensures
            r@ == self.name@,
    {
        self.name.as_str()
    }

    pub fn welcome_type(&self) -> (r: &str)
        ensures
            r@ == self.clan_type@,
    {
        self.clan_type.as_str()
    }

    pub fn description(&self) -> (r: &str)
        ensures
            r@ == self.description@,
    {
        self.description.as_str()
    }

    pub fn location(&self) -> (r: &Option<Location>)
        ensures
            *r == self.location,
    {
        &self.location
    }

    pub fn badge_urls(&self) -> (r: &BadgeUrls)
        ensures
            *r == self.badge_urls,
    {
        &self.badge_urls
    }

    pub fn clan_level(&self) -> (r: i64)
        ensures
            r == self.clan_level,
    {
        self.clan_level
    }

    pub fn clan_points(&self) -> (r: i64)
        ensures
            r == self.clan_points,
    {
        self.clan_points
    }

    pub fn clan_versus_points(&self) -> (r: i64)
        ensures
            r == self.clan_versus_points,
    {
        self.clan_versus_points
    }

    pub fn required_trophies(&self) -> (r: i64)
        ensures
            r == self.required_trophies,
    {
        self.required_trophies
    }

    pub fn war_frequency(&self) -> (r: &str)
        ensures
            r@ == self.war_frequency@,
    {
        self.war_frequency.as_str()
    }

    pub fn war_win_streak(&self) -> (r: i64)
        ensures
            r == self.war_win_streak,
    {
        self.war_win_streak
    }

    pub fn war_wins(&self) -> (r: i64)
        ensures
            r == self.war_wins,
    {
        self.war_wins
    }

    pub fn is_war_log_public(&self) -> (r: bool)
        ensures
            r == self.is_war_log_public,
    {
        self.is_war_log_public
    }

    pub fn war_league(&self) -> (r: &WarLeague)
        ensures
            *r == self.war_league,
    {
        &self.war_league
    }

    pub fn members(&self) -> (r: i64)
        ensures
            r == self.members,
    {
        self.members
    }

    pub fn member_list(&self) -> (r: &Vec<MemberList>)
        ensures
            *r == self.member_list,
    {
        &self.member_list
    }

    pub fn labels(&self) -> (r: &Vec<Label>)
        ensures
            *r == self.labels,
    {
        &self.labels
    }

    pub fn chat_language(&self) -> (r: &ChatLanguage)
        ensures
            *r == self.chat_language,
    {
        &self.chat_language
    }

    pub fn required_versus_trophies(&self) -> (r: i64)
        ensures
            r == self.required_versus_trophies,
    {
        self.required_versus_trophies
    }

    pub fn required_townhall_level(&self) -> (r: i64)
        ensures
            r == self.required_townhall_level,
    {
        self.required_townhall_level
    }
}

} // verus!
