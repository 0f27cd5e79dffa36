use vstd::prelude::*;

verus! {

/// The headers that every REST call carries: a JSON content type and the bot
/// token.
pub fn get_headers(token: &str) -> (r: Vec<(String, String)>)
    ensures
        r@.len() == 2,
        r@[0].0@ == "Content-Type"@,
        r@[0].1@ == "application/json"@,
        r@[1].0@ == "Authorization"@,
        r@[1].1@ == "Bot "@ + token@,
{
    let mut auth = String::from_str("Bot ");
    auth.append(token);
    let mut map: Vec<(String, String)> = Vec::new();
    map.push((String::from_str("Content-Type"), String::from_str("application/json")));
    map.push((String::from_str("Authorization"), auth));
    map
}

/// The header that records a reason in the audit log.
pub fn audit_log_header(reason: &str) -> (r: (String, String))
    ensures
        r.0@ == "X-Audit-Log-Reason"@,
        r.1@ == reason@,
{
    (String::from_str("X-Audit-Log-Reason"), String::from_str(reason))
}

/// The path of the bot's slash-command registry.
pub fn commands_path(bot_id: &str) -> (r: String)
    ensures
        r@ == "applications/"@ + bot_id@ + "/commands"@,
{
    let mut p = String::from_str("applications/");
    p.append(bot_id);
    p.append("/commands");
    p
}

/// The path of one command in the bot's slash-command registry.
pub fn command_path(bot_id: &str, command_id: &str) -> (r: String)
    ensures
        r@ == "applications/"@ + bot_id@ + "/commands"@ + "/"@ + command_id@,
{
    let mut p = commands_path(bot_id);
    p.append("/");
    p.append(command_id);
    p
}

} // verus!
