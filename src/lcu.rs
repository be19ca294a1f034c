//! The game client's lockfile and the records read from the client.
use vstd::prelude::*;
use vstd::string::*;

use base64::Engine;

use crate::json::{as_array, as_i64, as_str, field_of, json_as_array, json_as_i64, json_as_str, json_field};

verus! {

/// Where and how to reach the game client's local endpoint.
pub struct LcuInfo {
    pub port: String,
    pub password: String,
    pub auth_header: String,
}

/// The signed-in player, as the game client reports it.
pub struct Summoner {
    pub account_id: u64,
    pub display_name: String,
    pub game_name: String,
    pub puuid: String,
    pub summoner_id: u64,
    pub summoner_level: u32,
    pub tag_line: String,
}

/// The positions of the colons in `s`, in order.
pub open spec fn colon_positions(s: Seq<char>) -> Seq<int>
    decreases s.len(),
{
    if s.len() == 0 {
        Seq::empty()
    } else {
        let r = colon_positions(s.drop_last());
        if s.last() == ':' {
            r.push(s.len() - 1)
        } else {
            r
        }
    }
}

/// How many fields `s` splits into at its colons.
pub open spec fn field_count(s: Seq<char>) -> nat {
    colon_positions(s).len() + 1
}

/// The field `k` of `s` split at its colons (counting from zero).
pub open spec fn field(s: Seq<char>, k: int) -> Seq<char> {
    let p = colon_positions(s);
    let start = if k == 0 {
        0
    } else {
        p[k - 1] + 1
    };
    let end = if k < p.len() {
        p[k]
    } else {
        s.len() as int
    };
    s.subrange(start, end)
}

/// The standard base64 encoding (with padding) of a text's UTF-8 bytes.
pub uninterp spec fn base64_text(s: Seq<char>) -> Seq<char>;

/// The `Authorization` header value for a lockfile password.
pub open spec fn auth_header_for(password: Seq<char>) -> Seq<char> {
    "Basic "@ + base64_text("riot:"@ + password)
}

/// Relies on `base64::engine::general_purpose::STANDARD.encode`: the
/// padded standard base64 encoding of the text's bytes.
#[verifier::external_body]
fn base64_standard(s: &str) -> (r: String)
    ensures
        r@ == base64_text(s@),
{
    base64::engine::general_purpose::STANDARD.encode(s)
}

proof fn lemma_colon_positions_step(s: Seq<char>, i: int)
    requires
        0 <= i < s.len(),
    ensures
        colon_positions(s.take(i + 1)) == if s[i] == ':' {
            colon_positions(s.take(i)).push(i)
        } else {
            colon_positions(s.take(i))
        },
{
    assert(s.take(i + 1).drop_last() =~= s.take(i));
}

proof fn lemma_colon_positions_bounded(s: Seq<char>)
    ensures
        forall|j: int|
            0 <= j < colon_positions(s).len() ==> 0 <= #[trigger] colon_positions(s)[j] < s.len()
                && s[colon_positions(s)[j]] == ':',
        forall|j: int, k: int|
            0 <= j < k < colon_positions(s).len() ==> colon_positions(s)[j]
                < colon_positions(s)[k],
    decreases s.len(),
{
    if s.len() > 0 {
        let t = s.drop_last();
        lemma_colon_positions_bounded(t);
        assert forall|j: int| 0 <= j < colon_positions(t).len() implies s[#[trigger] colon_positions(
            t,
        )[j]] == ':' by {
            assert(s[colon_positions(t)[j]] == t[colon_positions(t)[j]]);
        }
    }
}

/// Reads the lockfile's text, `name:pid:port:password:protocol`: the port
/// and password are its third and fourth colon-separated fields, and the
/// header authenticates as `riot` with that password. A text of fewer than
/// five fields is no lockfile.
pub fn parse_lockfile(contents: &str) -> (r: Option<LcuInfo>)
    ensures
        r is Some <==> field_count(contents@) >= 5,
        r matches Some(info) ==> {
            &&& info.port@ == field(contents@, 2)
            &&& info.password@ == field(contents@, 3)
            &&& info.auth_header@ == auth_header_for(field(contents@, 3))
        },
{
    let n = contents.unicode_len();
    let mut colons: Vec<usize> = Vec::new();
    let mut i: usize = 0;
    while i < n
        invariant
            n == contents@.len(),
            i <= n,
            colons@.len() == colon_positions(contents@.take(i as int)).len(),
            forall|j: int|
                0 <= j < colons@.len() ==> colons@[j] as int == #[trigger] colon_positions(
                    contents@.take(i as int),
                )[j],
        decreases n - i,
    {
        proof {
            lemma_colon_positions_step(contents@, i as int);
        }
        if contents.get_char(i) == ':' {
            colons.push(i);
        }
        i = i + 1;
    }
    proof {
        assert(contents@.take(n as int) =~= contents@);
        lemma_colon_positions_bounded(contents@);
    }
    if colons.len() < 4 {
        return None;
    }
    proof {
        let p = colon_positions(contents@);
        assert(colons@[1] as int == p[1] && colons@[2] as int == p[2] && colons@[3] as int == p[3]);
        assert(p[1] < p[2] && p[2] < p[3] && p[3] < n);
    }
    let port = String::from_str(contents.substring_char(colons[1] + 1, colons[2]));
    let password = String::from_str(contents.substring_char(colons[2] + 1, colons[3]));
    let mut credentials = String::from_str("riot:");
    credentials.append(password.as_str());
    let mut auth_header = String::from_str("Basic ");
    auth_header.append(base64_standard(credentials.as_str()).as_str());
    Some(LcuInfo { port, password, auth_header })
}

/// The action belongs to the player in cell `local` and is of kind `t`.
pub open spec fn action_matches(a: serde_json::Value, local: i64, t: Seq<char>) -> bool {
    json_as_i64(json_field(a, "actorCellId"@)) == Some(local) && json_as_str(
        json_field(a, "type"@),
    ) == Some(t)
}

/// The actions of every group that is an array, in order; other groups are
/// skipped.
pub open spec fn flat_actions(groups: Seq<serde_json::Value>) -> Seq<serde_json::Value>
    decreases groups.len(),
{
    if groups.len() == 0 {
        Seq::empty()
    } else {
        let rest = flat_actions(groups.drop_last());
        match json_as_array(groups.last()) {
            Some(g) => rest + g,
            None => rest,
        }
    }
}

/// The first action of `s` that matches.
pub open spec fn first_match(s: Seq<serde_json::Value>, local: i64, t: Seq<char>) -> Option<
    serde_json::Value,
>
    decreases s.len(),
{
    if s.len() == 0 {
        None
    } else if action_matches(s[0], local, t) {
        Some(s[0])
    } else {
        first_match(s.drop_first(), local, t)
    }
}

/// What the search for the local player's action of kind `t` gives for a
/// champion-select session: the id of the first matching action and the
/// champion on it, or the message that says why there is none.
pub open spec fn local_player_action(session: serde_json::Value, t: Seq<char>) -> Result<
    (i64, Option<i64>),
    Seq<char>,
> {
    match json_as_i64(json_field(session, "localPlayerCellId"@)) {
        None => Err("Failed to get local player cell ID"@),
        Some(local) => match json_as_array(json_field(session, "actions"@)) {
            None => Err("No actions found"@),
            Some(groups) => match first_match(flat_actions(groups), local, t) {
                None => Err("Could not find your "@ + t + " action"@),
                Some(a) => match json_as_i64(json_field(a, "id"@)) {
                    None => Err("Failed to get action ID"@),
                    Some(id) => Ok((id, json_as_i64(json_field(a, "championId"@)))),
                },
            },
        },
    }
}

/// The result of the search, with its message as a `String`.
pub open spec fn found_as(r: Result<(i64, Option<i64>), String>, expected: Result<(i64, Option<i64>), Seq<char>>) -> bool {
    match expected {
        Ok(found) => r == Ok::<(i64, Option<i64>), String>(found),
        Err(m) => r matches Err(e) && e@ == m,
    }
}

proof fn lemma_first_match_concat(
    a: Seq<serde_json::Value>,
    b: Seq<serde_json::Value>,
    local: i64,
    t: Seq<char>,
)
    ensures
        first_match(a + b, local, t) == match first_match(a, local, t) {
            Some(x) => Some(x),
            None => first_match(b, local, t),
        },
    decreases a.len(),
{
    if a.len() == 0 {
        assert(a + b =~= b);
    } else {
        assert((a + b).drop_first() =~= a.drop_first() + b);
        lemma_first_match_concat(a.drop_first(), b, local, t);
    }
}

proof fn lemma_flat_actions_concat(x: Seq<serde_json::Value>, y: Seq<serde_json::Value>)
    ensures
        flat_actions(x + y) == flat_actions(x) + flat_actions(y),
    decreases y.len(),
{
    if y.len() == 0 {
        assert(x + y =~= x);
        assert(flat_actions(x) + flat_actions(y) =~= flat_actions(x));
    } else {
        assert((x + y).drop_last() =~= x + y.drop_last());
        lemma_flat_actions_concat(x, y.drop_last());
        match json_as_array(y.last()) {
            Some(g) => {
                assert(flat_actions(x) + flat_actions(y) =~= flat_actions(x) + flat_actions(
                    y.drop_last(),
                ) + g);
            },
            None => {},
        }
    }
}

/// Finds the local player's first action of kind `action_type` in a
/// champion-select session, group by group: its id and the champion on it.
pub fn find_local_player_action(session: &serde_json::Value, action_type: &str) -> (r: Result<
    (i64, Option<i64>),
    String,
>)
    ensures
        found_as(r, local_player_action(*session, action_type@)),
{
    let local = match as_i64(field_of(session, "localPlayerCellId")) {
        Some(c) => c,
        None => return Err(String::from_str("Failed to get local player cell ID")),
    };
    let groups = match as_array(field_of(session, "actions")) {
        Some(g) => g,
        None => return Err(String::from_str("No actions found")),
    };
    let n = groups.len();
    let mut i: usize = 0;
    while i < n
        invariant
            json_as_i64(json_field(*session, "localPlayerCellId"@)) == Some(local),
            json_as_array(json_field(*session, "actions"@)) == Some(groups@),
            n == groups@.len(),
            i <= n,
            first_match(flat_actions(groups@.take(i as int)), local, action_type@) is None,
        decreases n - i,
    {
        proof {
            assert(groups@.take(i + 1).drop_last() =~= groups@.take(i as int));
        }
        match as_array(&groups[i]) {
            Some(group) => {
                let m = group.len();
                let mut j: usize = 0;
                while j < m
                    invariant
                        json_as_i64(json_field(*session, "localPlayerCellId"@)) == Some(local),
                        json_as_array(json_field(*session, "actions"@)) == Some(groups@),
                        n == groups@.len(),
                        i < n,
                        first_match(flat_actions(groups@.take(i as int)), local, action_type@) is None,
                        json_as_array(groups@[i as int]) == Some(group@),
                        m == group@.len(),
                        j <= m,
                        first_match(group@.take(j as int), local, action_type@) is None,
                    decreases m - j,
                {
                    let action = &group[j];
                    proof {
                        assert(group@.take(j + 1) =~= group@.take(j as int) + seq![group@[j as int]]);
                        lemma_first_match_concat(group@.take(j as int), seq![group@[j as int]], local, action_type@);
                        assert(seq![group@[j as int]].drop_first() =~= Seq::<serde_json::Value>::empty());
                    }
                    let same_cell = match as_i64(field_of(action, "actorCellId")) {
                        Some(c) => c == local,
                        None => false,
                    };
                    let same_kind = match as_str(field_of(action, "type")) {
                        Some(k) => str_eq(k, action_type),
                        None => false,
                    };
                    if same_cell && same_kind {
                        proof {
                            // The action is the first match of its group, its group follows
                            // groups without a match, and what comes after does not count.
                            let s = groups@;
                            let one = seq![s[i as int]];
                            assert(one.drop_last() =~= Seq::<serde_json::Value>::empty());
                            assert(flat_actions(one) == flat_actions(one.drop_last()) + group@);
                            assert(flat_actions(one) =~= group@);
                            assert(s.take(i + 1) =~= s.take(i as int) + one);
                            lemma_flat_actions_concat(s.take(i as int), one);
                            assert(s =~= s.take(i + 1) + s.skip(i + 1));
                            lemma_flat_actions_concat(s.take(i + 1), s.skip(i + 1));
                            assert(group@ =~= group@.take(j + 1) + group@.skip(j + 1));
                            lemma_first_match_concat(group@.take(j + 1), group@.skip(j + 1), local, action_type@);
                            lemma_first_match_concat(flat_actions(s.take(i as int)), group@, local, action_type@);
                            lemma_first_match_concat(flat_actions(s.take(i + 1)), flat_actions(s.skip(i + 1)), local, action_type@);
                        }
                        let action_id = match as_i64(field_of(action, "id")) {
                            Some(id) => id,
                            None => return Err(String::from_str("Failed to get action ID")),
                        };
                        let champion_id = as_i64(field_of(action, "championId"));
                        return Ok((action_id, champion_id));
                    }
                    proof {
                        assert(first_match(seq![group@[j as int]].drop_first(), local, action_type@) is None);
                    }
                    j = j + 1;
                }
                proof {
                    assert(group@.take(m as int) =~= group@);
                    lemma_first_match_concat(flat_actions(groups@.take(i as int)), group@, local, action_type@);
                }
            },
            None => {},
        }
        i = i + 1;
    }
    proof {
        assert(groups@.take(n as int) =~= groups@);
    }
    let mut message = String::from_str("Could not find your ");
    message.append(action_type);
    message.append(" action");
    Err(message)
}

/// The local player's pick action in a champion-select session.
pub fn find_local_player_pick_action(session: &serde_json::Value) -> (r: Result<
    (i64, Option<i64>),
    String,
>)
    ensures
        found_as(r, local_player_action(*session, "pick"@)),
{
    find_local_player_action(session, "pick")
}

/// The local player's ban action in a champion-select session.
pub fn find_local_player_ban_action(session: &serde_json::Value) -> (r: Result<
    (i64, Option<i64>),
    String,
>)
    ensures
        found_as(r, local_player_action(*session, "ban"@)),
{
    find_local_player_action(session, "ban")
}

/// Whether two texts are the same.
fn str_eq(a: &str, b: &str) -> (r: bool)
    ensures
        r == (a@ == b@),
{
    let n = a.unicode_len();
    if n != b.unicode_len() {
        return false;
    }
    let mut i: usize = 0;
    while i < n
        invariant
            n == a@.len(),
            n == b@.len(),
            i <= n,
            forall|k: int| 0 <= k < i ==> a@[k] == b@[k],
        decreases n - i,
    {
        if a.get_char(i) != b.get_char(i) {
            return false;
        }
        i = i + 1;
    }
    assert(a@ =~= b@);
    true
}

} // verus!
