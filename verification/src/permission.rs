//! Who may change the bot's configuration.

use vstd::prelude::*;
use vstd::string::*;
use crate::participants::contains_user;
use crate::text::same_text;

verus! {

/// The name of the role that may control the bot.
pub const ROLL_GBF_BOT_CONTROLS: &'static str = "gbf_bot_control";

/// A role of a guild.
#[derive(Debug, Clone, PartialEq, Eq)]
pub struct Role {
    pub id: u64,
    pub name: String,
}

/// The id of the first role named `name`.
pub open spec fn role_named(roles: Seq<Role>, name: Seq<char>) -> Option<u64>
    decreases roles.len(),
{
    if roles.len() == 0 {
        None
    } else if roles[0].name@ == name {
        Some(roles[0].id)
    } else {
        role_named(roles.drop_first(), name)
    }
}

/// The refusal that names a role the guild does not have.
pub open spec fn no_such_role(role_name: Seq<char>) -> Seq<char> {
    "role is not found: '"@ + role_name + "'"@
}

/// The refusal that names a member without the role.
pub open spec fn lacks_role(member_name: Seq<char>, role_name: Seq<char>) -> Seq<char> {
    "'"@ + member_name + "' is roll '"@ + role_name + "' not found."@
}

/// Whether a member holds the role named `role_name`, and if not, why.
pub open spec fn spec_has_role(
    guild_roles: Seq<Role>,
    member_roles: Seq<u64>,
    member_name: Seq<char>,
    role_name: Seq<char>,
) -> Result<(), Seq<char>> {
    match role_named(guild_roles, role_name) {
        None => Err(no_such_role(role_name)),
        Some(id) => if member_roles.contains(id) {
            Ok(())
        } else {
            Err(lacks_role(member_name, role_name))
        },
    }
}

/// The id of the first role of the guild that is named `name`.
pub fn find_role(guild_roles: &Vec<Role>, name: &str) -> (r: Option<u64>)
    ensures
        r == role_named(guild_roles@, name@),
{
    let mut i: usize = 0;
    assert(guild_roles@.skip(0) =~= guild_roles@);
    while i < guild_roles.len()
        invariant
            i <= guild_roles.len(),
            role_named(guild_roles@, name@) == role_named(guild_roles@.skip(i as int), name@),
        decreases guild_roles.len() - i,
    {
        proof {
            let rest = guild_roles@.skip(i as int);
            assert(rest[0] == guild_roles@[i as int]);
            assert(rest.drop_first() =~= guild_roles@.skip(i + 1));
        }
        if same_text(guild_roles[i].name.as_str(), name) {
            return Some(guild_roles[i].id);
        }
        i = i + 1;
    }
    None
}

/// Checks that the member `member_name`, who holds the roles
/// `member_roles`, holds the role named `role_name`.
pub fn has_role(
    guild_roles: &Vec<Role>,
    member_roles: &Vec<u64>,
    member_name: &str,
    role_name: &str,
) -> (r: Result<(), String>)
    ensures
        match spec_has_role(guild_roles@, member_roles@, member_name@, role_name@) {
            Ok(_) => r is Ok,
            Err(reason) => r matches Err(e) && e@ == reason,
        },
{
    match find_role(guild_roles, role_name) {
        None => {
            let mut e = String::from_str("role is not found: '");
            e.append(role_name);
            e.append("'");
            Err(e)
        },
        Some(id) => {
            if contains_user(member_roles, id) {
                Ok(())
            } else {
                let mut e = String::from_str("'");
                e.append(member_name);
                e.append("' is roll '");
                e.append(role_name);
                e.append("' not found.");
                Err(e)
            }
        },
    }
}

/// Checks that the member holds the role that may control the bot.
pub fn has_bot_control_permission(
    guild_roles: &Vec<Role>,
    member_roles: &Vec<u64>,
    member_name: &str,
) -> (r: Result<(), String>)
    ensures
        match spec_has_role(
            guild_roles@,
            member_roles@,
            member_name@,
            ROLL_GBF_BOT_CONTROLS@,
        ) {
            Ok(_) => r is Ok,
            Err(reason) => r matches Err(e) && e@ == reason,
        },
{
    has_role(guild_roles, member_roles, member_name, ROLL_GBF_BOT_CONTROLS)
}

} // verus!
