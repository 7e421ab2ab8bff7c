//! What the relay tells Discord users about the VRChat friends they track: the texts
//! of a notification, the worlds one can invite oneself to, and the decisions taken
//! when an invite button is pressed.
use std::collections::HashSet;
use vstd::prelude::*;
use crate::text::{split_once, split_once_at};
use crate::vrc::websocket::location::{location_from_text, location_text, Location, SpecLocation};
use crate::vrc::websocket::platform::{platform_text, Platform};

verus! {

/// The world and instance that an invite to `l` goes to: those of an `Other`
/// location of the form `world:instance`, split at the first `:`.
pub open spec fn invite_target(l: SpecLocation) -> Option<(Seq<char>, Seq<char>)> {
    match l {
        SpecLocation::Other(v) => split_once(v, ':'),
        _ => None,
    }
}

/// The invite targets of the locations, in order, skipping those that have none.
pub open spec fn invite_targets_of(locs: Seq<SpecLocation>) -> Seq<(Seq<char>, Seq<char>)>
    decreases locs.len(),
{
    if locs.len() == 0 {
        seq![]
    } else {
        let rest = invite_targets_of(locs.drop_last());
        match invite_target(locs.last()) {
            Some(t) => rest.push(t),
            None => rest,
        }
    }
}

/// The values that are present, in order.
pub open spec fn present<A>(s: Seq<Option<A>>) -> Seq<A>
    decreases s.len(),
{
    if s.len() == 0 {
        seq![]
    } else {
        let rest = present(s.drop_last());
        match s.last() {
            Some(a) => rest.push(a),
            None => rest,
        }
    }
}

/// The views of locations.
pub open spec fn location_views(s: Seq<Location>) -> Seq<SpecLocation> {
    s.map_values(|l: Location| l@)
}

/// The views of optional locations.
pub open spec fn optional_location_views(s: Seq<Option<Location>>) -> Seq<Option<SpecLocation>> {
    s.map_values(
        |o: Option<Location>|
            match o {
                Some(l) => Some(l@),
                None => None,
            },
    )
}

/// The texts of (world, instance) pairs.
pub open spec fn target_views(s: Seq<(String, String)>) -> Seq<(Seq<char>, Seq<char>)> {
    s.map_values(|p: (String, String)| (p.0@, p.1@))
}

fn push_target(res: &mut Vec<(String, String)>, l: &Location)
    ensures
        target_views(final(res)@) == match invite_target(l@) {
            Some(t) => target_views(old(res)@).push(t),
            None => target_views(old(res)@),
        },
{
    if let Location::Other(v) = l {
        if let Some(target) = split_once_at(v.as_str(), ':') {
            res.push(target);
            assert(target_views(final(res)@) =~= target_views(old(res)@).push((target.0@, target.1@)));
        }
    }
}

/// The (world, instance) pairs that invite buttons are offered for: those of the
/// locations `locs`, then those of the present ones among `olocs`.
pub fn invite_targets(locs: &[Location], olocs: &[Option<Location>]) -> (res: Vec<(String, String)>)
    ensures
        target_views(res@) == invite_targets_of(
            location_views(locs@) + present(optional_location_views(olocs@)),
        ),
{
    let mut res: Vec<(String, String)> = Vec::new();
    let mut i: usize = 0;
    while i < locs.len()
        invariant
            i <= locs@.len(),
            target_views(res@) == invite_targets_of(location_views(locs@.take(i as int))),
        decreases locs@.len() - i,
    {
        push_target(&mut res, &locs[i]);
        assert(location_views(locs@.take(i + 1)).drop_last() =~= location_views(
            locs@.take(i as int),
        ));
        i = i + 1;
    }
    assert(locs@.take(locs@.len() as int) =~= locs@);
    let ghost front = location_views(locs@);
    assert(present(optional_location_views(olocs@.take(0))) =~= Seq::<SpecLocation>::empty());
    assert(front + Seq::<SpecLocation>::empty() =~= front);
    let mut j: usize = 0;
    while j < olocs.len()
        invariant
            j <= olocs@.len(),
            front == location_views(locs@),
            target_views(res@) == invite_targets_of(
                front + present(optional_location_views(olocs@.take(j as int))),
            ),
        decreases olocs@.len() - j,
    {
        let ghost before = present(optional_location_views(olocs@.take(j as int)));
        assert(optional_location_views(olocs@.take(j + 1)).drop_last() =~= optional_location_views(
            olocs@.take(j as int),
        ));
        match &olocs[j] {
            Some(l) => {
                push_target(&mut res, l);
                assert(present(optional_location_views(olocs@.take(j + 1))) == before.push(l@));
                assert((front + before.push(l@)).drop_last() =~= front + before);
            },
            None => {
                assert(present(optional_location_views(olocs@.take(j + 1))) == before);
            },
        }
        j = j + 1;
    }
    assert(olocs@.take(olocs@.len() as int) =~= olocs@);
    res
}

/// Every world and instance offered for an invite comes from one of the locations: an
/// `Other` location whose text is exactly `world:instance`, with no `:` in the world.
pub proof fn lemma_invite_targets_come_from_locations(locs: Seq<SpecLocation>)
    ensures
        forall|j: int|
            0 <= j < invite_targets_of(locs).len() ==> {
                let t = #[trigger] invite_targets_of(locs)[j];
                &&& locs.contains(SpecLocation::Other(t.0 + seq![':'] + t.1))
                &&& !t.0.contains(':')
            },
    decreases locs.len(),
{
    if locs.len() > 0 {
        let rest = locs.drop_last();
        lemma_invite_targets_come_from_locations(rest);
        let targets = invite_targets_of(locs);
        assert forall|j: int| 0 <= j < targets.len() implies {
            let t = #[trigger] targets[j];
            &&& locs.contains(SpecLocation::Other(t.0 + seq![':'] + t.1))
            &&& !t.0.contains(':')
        } by {
            if j < invite_targets_of(rest).len() {
                let t = invite_targets_of(rest)[j];
                let k = choose|k: int| 0 <= k < rest.len() && rest[k] == SpecLocation::Other(t.0 + seq![':'] + t.1);
                assert(locs[k] == rest[k]);
            } else {
                let last = locs.last();
                if let SpecLocation::Other(v) = last {
                    crate::text::lemma_split_once_rejoins(v, ':');
                }
                assert(locs[locs.len() - 1] == last);
            }
        }
    }
}

/// `label: value`.
pub open spec fn labelled_text(label: Seq<char>, value: Seq<char>) -> Seq<char> {
    label + ": "@ + value
}

/// `label: value`.
pub fn labelled(label: &str, value: &str) -> (res: String)
    ensures
        res@ == labelled_text(label@, value@),
{
    let mut res = String::from_str(label);
    res.append(": ");
    res.append(value);
    res
}

/// The title of a notification about a user: `# action - backup name - display name`.
pub open spec fn user_title_of(action: Seq<char>, backup_name: Seq<char>, display_name: Seq<char>) -> Seq<char> {
    "# "@ + action + " - "@ + backup_name + " - "@ + display_name
}

/// The title of a notification that carries no user: `# action - backup name`.
pub open spec fn title_of(action: Seq<char>, backup_name: Seq<char>) -> Seq<char> {
    "# "@ + action + " - "@ + backup_name
}

/// `State: state, Status: status, Description: description`.
pub open spec fn status_line_of(state: Seq<char>, status: Seq<char>, description: Seq<char>) -> Seq<char> {
    "State: "@ + state + ", Status: "@ + status + ", Description: "@ + description
}

/// The biography, under a `Bio:` line.
pub open spec fn bio_of(bio: Seq<char>) -> Seq<char> {
    "Bio:\n "@ + bio
}

/// The description of a user's profile image.
pub open spec fn image_description_of(display_name: Seq<char>) -> Seq<char> {
    "Profile Image of - "@ + display_name
}

/// `Bio Links: ` and then each link on a line of its own.
pub open spec fn bio_links_of(links: Seq<Seq<char>>) -> Seq<char> {
    "Bio Links: "@ + link_lines(links)
}

/// The title of a notification about a user: `# action - backup name - display name`.
pub fn user_title(action: &str, backup_name: &str, display_name: &str) -> (res: String)
    ensures
        res@ == user_title_of(action@, backup_name@, display_name@),
{
    let mut res = String::from_str("# ");
    res.append(action);
    res.append(" - ");
    res.append(backup_name);
    res.append(" - ");
    res.append(display_name);
    res
}

/// The title of a notification that carries no user: `# action - backup name`.
pub fn title(action: &str, backup_name: &str) -> (res: String)
    ensures
        res@ == title_of(action@, backup_name@),
{
    let mut res = String::from_str("# ");
    res.append(action);
    res.append(" - ");
    res.append(backup_name);
    res
}

/// `State: state, Status: status, Description: description`.
pub fn status_line(state: &str, status: &str, description: &str) -> (res: String)
    ensures
        res@ == status_line_of(state@, status@, description@),
{
    let mut res = String::from_str("State: ");
    res.append(state);
    res.append(", Status: ");
    res.append(status);
    res.append(", Description: ");
    res.append(description);
    res
}

/// The biography, under a `Bio:` line.
pub fn bio_text(bio: &str) -> (res: String)
    ensures
        res@ == bio_of(bio@),
{
    let mut res = String::from_str("Bio:\n ");
    res.append(bio);
    res
}

/// The description of a user's profile image.
pub fn image_description(display_name: &str) -> (res: String)
    ensures
        res@ == image_description_of(display_name@),
{
    let mut res = String::from_str("Profile Image of - ");
    res.append(display_name);
    res
}

/// Each link on a line of its own, after `\n 1. `.
pub open spec fn link_lines(links: Seq<Seq<char>>) -> Seq<char>
    decreases links.len(),
{
    if links.len() == 0 {
        seq![]
    } else {
        link_lines(links.drop_last()) + "\n 1. "@ + links.last()
    }
}

/// The texts of the strings.
pub open spec fn string_views(s: Seq<String>) -> Seq<Seq<char>> {
    s.map_values(|t: String| t@)
}

/// `Bio Links: ` and then each link on a line of its own.
pub fn bio_links_text(links: &[String]) -> (res: String)
    ensures
        res@ == bio_links_of(string_views(links@)),
{
    let mut res = String::from_str("Bio Links: ");
    let mut i: usize = 0;
    while i < links.len()
        invariant
            i <= links@.len(),
            res@ == "Bio Links: "@ + link_lines(string_views(links@.take(i as int))),
        decreases links@.len() - i,
    {
        let ghost before = res@;
        res.append("\n 1. ");
        res.append(links[i].as_str());
        assert(string_views(links@.take(i + 1)).drop_last() =~= string_views(
            links@.take(i as int),
        ));
        assert(res@ =~= "Bio Links: "@ + link_lines(string_views(links@.take(i + 1))));
        i = i + 1;
    }
    assert(links@.take(links@.len() as int) =~= links@);
    res
}

/// `true` or `false`, as `Display` writes a `bool`.
pub open spec fn bool_text(b: bool) -> Seq<char> {
    if b {
        "true"@
    } else {
        "false"@
    }
}

/// Writes a `bool` as `Display` does.
pub fn bool_string(b: bool) -> (res: &'static str)
    ensures
        res@ == bool_text(b),
{
    if b {
        "true"
    } else {
        "false"
    }
}

/// The lines of a friend-online notification: platform, location, and whether an
/// invite can be requested.
pub fn friend_online_lines(platform: &Platform, location: &Location, can_request_invite: bool) -> (res: Vec<String>)
    ensures
        string_views(res@) == seq![
            labelled_text("Platform"@, platform_text(platform@)),
            labelled_text("Location"@, location_text(location@)),
            labelled_text("Can Request Invite"@, bool_text(can_request_invite)),
        ],
{
    let mut res: Vec<String> = Vec::new();
    res.push(labelled("Platform", platform.to_string().as_str()));
    res.push(labelled("Location", location.to_text().as_str()));
    res.push(labelled("Can Request Invite", bool_string(can_request_invite)));
    assert(string_views(res@) =~= seq![
        labelled_text("Platform"@, platform_text(platform@)),
        labelled_text("Location"@, location_text(location@)),
        labelled_text("Can Request Invite"@, bool_text(can_request_invite)),
    ]);
    res
}

/// The lines of a friend-location notification: location, the destination of a
/// journey, world and whether an invite can be requested.
pub fn friend_location_lines(
    location: &Location,
    traveling_to_location: &Location,
    world_id: &str,
    can_request_invite: bool,
) -> (res: Vec<String>)
    ensures
        string_views(res@) == seq![
            labelled_text("Location"@, location_text(location@)),
            labelled_text("Traveling to Location"@, location_text(traveling_to_location@)),
            labelled_text("World Id"@, world_id@),
            labelled_text("Can Request Invite"@, bool_text(can_request_invite)),
        ],
{
    let mut res: Vec<String> = Vec::new();
    res.push(labelled("Location", location.to_text().as_str()));
    res.push(labelled("Traveling to Location", traveling_to_location.to_text().as_str()));
    res.push(labelled("World Id", world_id));
    res.push(labelled("Can Request Invite", bool_string(can_request_invite)));
    assert(string_views(res@) =~= seq![
        labelled_text("Location"@, location_text(location@)),
        labelled_text("Traveling to Location"@, location_text(traveling_to_location@)),
        labelled_text("World Id"@, world_id@),
        labelled_text("Can Request Invite"@, bool_text(can_request_invite)),
    ]);
    res
}

/// The line that names the platform of a friend who became active or went offline.
pub fn platform_line(platform: &Platform) -> (res: String)
    ensures
        res@ == labelled_text("Platform"@, platform_text(platform@)),
{
    labelled("Platform", platform.to_string().as_str())
}

/// Where a user is and is going, as far as VRChat tells.
#[derive(Debug, Clone)]
pub struct UserPlaces {
    pub location: Option<String>,
    pub world_id: Option<String>,
    pub instance_id: Option<String>,
    pub traveling_to_world: Option<String>,
    pub traveling_to_location: Option<String>,
    pub traveling_to_instance: Option<String>,
}

/// The line `label: value` when there is a value, else nothing.
pub open spec fn optional_line(label: Seq<char>, value: Option<String>) -> Seq<Seq<char>> {
    match value {
        Some(v) => seq![labelled_text(label, v@)],
        None => seq![],
    }
}

/// The location that an optional text reads as, if there is one.
pub open spec fn optional_location(value: Option<String>) -> Option<SpecLocation> {
    match value {
        Some(v) => Some(location_from_text(v@)),
        None => None,
    }
}

fn push_optional_line(res: &mut Vec<String>, label: &str, value: &Option<String>)
    ensures
        string_views(final(res)@) == string_views(old(res)@) + optional_line(label@, *value),
{
    match value {
        Some(v) => {
            res.push(labelled(label, v.as_str()));
            assert(string_views(final(res)@) =~= string_views(old(res)@) + optional_line(label@, *value));
        },
        None => {
            assert(string_views(final(res)@) =~= string_views(old(res)@) + optional_line(label@, *value));
        },
    }
}

fn read_location(value: &Option<String>) -> (res: Option<Location>)
    ensures
        match res {
            Some(l) => optional_location(*value) == Some(l@),
            None => value is None,
        },
{
    match value {
        Some(v) => Some(Location::from(v.as_str())),
        None => None,
    }
}

/// One line for each place that is known, in the order location, world, instance,
/// destination world, destination location, destination instance.
pub open spec fn place_lines(p: UserPlaces) -> Seq<Seq<char>> {
    optional_line("Location"@, p.location) + optional_line("World Id"@, p.world_id)
        + optional_line("Instance Id"@, p.instance_id) + optional_line(
        "Traveling to World"@,
        p.traveling_to_world,
    ) + optional_line("Traveling to Location"@, p.traveling_to_location) + optional_line(
        "Traveling to Instance"@,
        p.traveling_to_instance,
    )
}

/// The worlds one can invite oneself to from a user's location and destination.
pub open spec fn place_targets(p: UserPlaces) -> Seq<(Seq<char>, Seq<char>)> {
    invite_targets_of(
        present(seq![optional_location(p.location), optional_location(p.traveling_to_location)]),
    )
}

impl UserPlaces {
    /// One line for each place that is known, in the order location, world, instance,
    /// destination world, destination location, destination instance.
    pub fn lines(&self) -> (res: Vec<String>)
        ensures
            string_views(res@) == place_lines(*self),
    {
        let mut res: Vec<String> = Vec::new();
        assert(string_views(res@) =~= Seq::<Seq<char>>::empty());
        push_optional_line(&mut res, "Location", &self.location);
        push_optional_line(&mut res, "World Id", &self.world_id);
        push_optional_line(&mut res, "Instance Id", &self.instance_id);
        push_optional_line(&mut res, "Traveling to World", &self.traveling_to_world);
        push_optional_line(&mut res, "Traveling to Location", &self.traveling_to_location);
        push_optional_line(&mut res, "Traveling to Instance", &self.traveling_to_instance);
        res
    }

    /// The worlds one can invite oneself to from the user's location and destination.
    pub fn invite_targets(&self) -> (res: Vec<(String, String)>)
        ensures
            target_views(res@) == place_targets(*self),
    {
        let olocs = vec![read_location(&self.location), read_location(&self.traveling_to_location)];
        let none: Vec<Location> = Vec::new();
        let res = invite_targets(none.as_slice(), olocs.as_slice());
        assert(location_views(none@) =~= Seq::<SpecLocation>::empty());
        assert(optional_location_views(olocs@) =~= seq![optional_location(self.location), optional_location(self.traveling_to_location)]);
        assert(Seq::<SpecLocation>::empty() + present(optional_location_views(olocs@)) =~= present(optional_location_views(olocs@)));
        res
    }
}

/// The profile image of a user: the icon when there is one, else the profile picture
/// when it is not empty, else the avatar's thumbnail.
pub fn get_url<'a>(
    icon_url: Option<&'a str>,
    profile_pic_override_thumbnail: &'a str,
    current_avatar_thumbnail_image_url: &'a str,
) -> (res: &'a str)
    ensures
        res == match icon_url {
            Some(icon) => icon,
            None => if profile_pic_override_thumbnail@.len() != 0 {
                profile_pic_override_thumbnail
            } else {
                current_avatar_thumbnail_image_url
            },
        },
{
    match icon_url {
        Some(icon) => icon,
        None => if !profile_pic_override_thumbnail.is_empty() {
            profile_pic_override_thumbnail
        } else {
            current_avatar_thumbnail_image_url
        },
    }
}

/// The title of the notice sent to the owner when a websocket message cannot be read.
pub fn undecodable_title() -> (res: &'static str)
    ensures
        res@ == "# Failed to Deserialize Websocket Message"@,
{
    "# Failed to Deserialize Websocket Message"
}

/// The error of an unreadable websocket message, in code quotes.
pub fn undecodable_error_line(error: &str) -> (res: String)
    ensures
        res@ == "Error: `"@ + error@ + "`"@,
{
    let mut res = String::from_str("Error: `");
    res.append(error);
    res.append("`");
    res
}

/// The data of an unreadable websocket message, in a code block.
pub fn undecodable_data_line(data: &str) -> (res: String)
    ensures
        res@ == "Data: ```\n"@ + data@ + "\n```"@,
{
    let mut res = String::from_str("Data: ```\n");
    res.append(data);
    res.append("\n```");
    res
}

/// A VRChat account of the relay, as seen when an invite button is pressed: its
/// VRChat user id and the Discord users who own it.
#[derive(Debug)]
pub struct InviteAccount {
    pub vrc_user_id: String,
    pub account_owners: HashSet<u64>,
}

/// The account that an invite button of account `i` for `vrc_user_id` is served by:
/// account `i` when its id matches, else the first account whose id matches.
pub open spec fn selected_account(ids: Seq<Seq<char>>, i: int, vrc_user_id: Seq<char>) -> Option<int> {
    if 0 <= i < ids.len() && ids[i] == vrc_user_id {
        Some(i)
    } else {
        ids.index_of_first(vrc_user_id)
    }
}

/// The account chosen for a button always has the button's VRChat id, and an account
/// is found whenever any account has that id. The button's own account is chosen when
/// it has the id; otherwise the first account with the id is.
pub proof fn lemma_selected_account_has_the_id(ids: Seq<Seq<char>>, i: int, vrc_user_id: Seq<char>)
    ensures
        selected_account(ids, i, vrc_user_id) matches Some(k) ==> 0 <= k < ids.len() && ids[k]
            == vrc_user_id,
        selected_account(ids, i, vrc_user_id) is None <==> !ids.contains(vrc_user_id),
        0 <= i < ids.len() && ids[i] == vrc_user_id ==> selected_account(ids, i, vrc_user_id) == Some(i),
        !(0 <= i < ids.len() && ids[i] == vrc_user_id) ==> (selected_account(ids, i, vrc_user_id) matches Some(k)
            ==> forall|j: int| 0 <= j < k ==> ids[j] != vrc_user_id),
{
    ids.index_of_first_ensures(vrc_user_id);
}

/// The ids of the accounts.
pub open spec fn account_ids(accounts: Seq<InviteAccount>) -> Seq<Seq<char>> {
    accounts.map_values(|a: InviteAccount| a.vrc_user_id@)
}

/// What is done when a Discord user presses an invite button.
#[derive(Debug, Clone, Copy, PartialEq, Eq, Structural)]
pub enum InviteDecision {
    /// No account has the id of the button.
    NoAccount,
    /// The account does not list the presser as an owner.
    NotOwner,
    /// The account with this index invites itself.
    Invite(usize),
}

/// The index of the account that serves an invite button of account `i` for
/// `vrc_user_id`, if any.
pub fn select_account(accounts: &[InviteAccount], i: usize, vrc_user_id: &str) -> (res: Option<usize>)
    ensures
        match res {
            Some(k) => selected_account(account_ids(accounts@), i as int, vrc_user_id@) == Some(k as int),
            None => selected_account(account_ids(accounts@), i as int, vrc_user_id@) is None,
        },
{
    let ghost ids = account_ids(accounts@);
    let n = accounts.len();
    if i < n && crate::text::str_equals(accounts[i].vrc_user_id.as_str(), vrc_user_id) {
        return Some(i);
    }
    let mut k: usize = 0;
    while k < n
        invariant
            n == accounts@.len(),
            ids == account_ids(accounts@),
            k <= n,
            !(0 <= i < ids.len() && ids[i as int] == vrc_user_id@),
            forall|j: int| 0 <= j < k ==> ids[j] != vrc_user_id@,
        decreases n - k,
    {
        if crate::text::str_equals(accounts[k].vrc_user_id.as_str(), vrc_user_id) {
            proof {
                assert(ids[k as int] == vrc_user_id@);
                ids.index_of_first_ensures(vrc_user_id@);
            }
            return Some(k);
        }
        k = k + 1;
    }
    proof {
        ids.index_of_first_ensures(vrc_user_id@);
    }
    None
}

/// Whether `requester` is among the owners.
pub fn is_owner(owners: &HashSet<u64>, requester: u64) -> (res: bool)
    ensures
        res == owners@.contains(requester),
{
    broadcast use vstd::std_specs::hash::group_hash_axioms;
    owners.contains(&requester)
}

/// Decides what is done when `requester` presses the invite button of account `i`
/// for `vrc_user_id`: find the account, then check that the requester owns it.
pub fn decide_invite(accounts: &[InviteAccount], i: usize, vrc_user_id: &str, requester: u64) -> (res: InviteDecision)
    ensures
        match selected_account(account_ids(accounts@), i as int, vrc_user_id@) {
            None => res == InviteDecision::NoAccount,
            Some(k) => 0 <= k < accounts@.len() && if accounts@[k].account_owners@.contains(requester) {
                res == InviteDecision::Invite(k as usize)
            } else {
                res == InviteDecision::NotOwner
            },
        },
{
    match select_account(accounts, i, vrc_user_id) {
        None => InviteDecision::NoAccount,
        Some(k) => {
            proof {
                account_ids(accounts@).index_of_first_ensures(vrc_user_id@);
            }
            if is_owner(&accounts[k].account_owners, requester) {
                InviteDecision::Invite(k)
            } else {
                InviteDecision::NotOwner
            }
        },
    }
}

/// The reply to a pressed invite button that was not acted on.
pub fn refusal_text(decision: InviteDecision) -> (res: &'static str)
    requires
        !(decision is Invite),
    ensures
        decision is NoAccount ==> res@ == "Did not find vrchat account to invite"@,
        decision is NotOwner ==> res@ == "You are NOT listed as one of the VRChat account owners. You don't have permission to send an invite to the VRChat account."@,
{
    match decision {
        InviteDecision::NoAccount => "Did not find vrchat account to invite",
        _ => "You are NOT listed as one of the VRChat account owners. You don't have permission to send an invite to the VRChat account.",
    }
}

/// The reply when the invite was sent.
pub fn invite_sent_text() -> (res: &'static str)
    ensures
        res@ == "Sent invite"@,
{
    "Sent invite"
}

/// The reply when the VRChat API refused the invite.
pub fn invite_failed_text(error: &str) -> (res: String)
    ensures
        res@ == "Failed to send invite: "@ + error@,
{
    let mut res = String::from_str("Failed to send invite: ");
    res.append(error);
    res
}

/// The reply when the id of a pressed button cannot be read.
pub fn unreadable_button_text(error: &str) -> (res: String)
    ensures
        res@ == "Error deserializing id of Button: "@ + error@,
{
    let mut res = String::from_str("Error deserializing id of Button: ");
    res.append(error);
    res
}

/// What VRChat tells of a friend's profile, as the notifications show it.
#[derive(Debug, Clone)]
pub struct Profile {
    pub display_name: String,
    /// The user's state, as VRChat writes it.
    pub state: String,
    /// The user's status, as VRChat writes it.
    pub status: String,
    pub status_description: String,
    pub bio: String,
    pub bio_links: Vec<String>,
    pub icon_url: Option<String>,
    pub profile_pic_override_thumbnail: String,
    pub current_avatar_thumbnail_image_url: String,
    pub places: UserPlaces,
}

/// The profile image of a user, as `get_url` chooses it.
pub open spec fn profile_image_of(p: Profile) -> Seq<char> {
    match p.icon_url {
        Some(icon) => icon@,
        None => if p.profile_pic_override_thumbnail@.len() != 0 {
            p.profile_pic_override_thumbnail@
        } else {
            p.current_avatar_thumbnail_image_url@
        },
    }
}

/// A VRChat user that Discord users track: the VRChat id, the name shown for them,
/// and the Discord users who are told about them.
#[derive(Debug)]
pub struct TrackedUser {
    pub vrc_user_id: String,
    pub backup_name: String,
    pub forward_ids: HashSet<u64>,
}

/// The VRChat ids of the followed users.
pub open spec fn tracked_ids(followed: Seq<TrackedUser>) -> Seq<Seq<char>> {
    followed.map_values(|t: TrackedUser| t.vrc_user_id@)
}

/// A websocket message as the relay sees it.
#[derive(Debug)]
pub enum RelayEvent {
    FriendAdd { user_id: String, profile: Profile },
    FriendDelete { user_id: String },
    FriendOnline {
        user_id: String,
        profile: Profile,
        platform: Platform,
        location: Location,
        can_request_invite: bool,
    },
    FriendActive { user_id: String, profile: Profile, platform: Platform },
    FriendOffline { user_id: String, platform: Platform },
    FriendUpdate { user_id: String, profile: Profile },
    FriendLocation {
        user_id: String,
        profile: Profile,
        location: Location,
        traveling_to_location: Location,
        world_id: String,
        can_request_invite: bool,
    },
    /// Any message about something other than a friend: nobody is told of it.
    Unnotified,
}

/// What reached the relay from the websocket.
#[derive(Debug)]
pub enum Incoming {
    /// A message that was read.
    Event(RelayEvent),
    /// A message that could not be decoded: the error, and the message's data.
    Undecodable { error: String, data: String },
    /// The socket failed in another way.
    Failed,
}

/// Who is told.
#[derive(Debug, Clone, Copy, PartialEq, Eq, Structural)]
pub enum Delivery {
    /// The Discord users who forward the followed user with this index.
    Forwards(usize),
    /// The owner of the relay.
    Owner,
}

/// A Discord message to send: to whom, its lines, the profile image with its
/// description, and a row of invite buttons for (world, instance) pairs.
#[derive(Debug)]
pub struct Notice {
    pub delivery: Delivery,
    pub lines: Vec<String>,
    pub image: Option<(String, String)>,
    pub invite_row: Option<Vec<(String, String)>>,
}

/// The mathematical value of a [`Notice`].
pub struct NoticeView {
    pub delivery: Delivery,
    pub lines: Seq<Seq<char>>,
    pub image: Option<(Seq<char>, Seq<char>)>,
    pub invite_row: Option<Seq<(Seq<char>, Seq<char>)>>,
}

impl View for Notice {
    type V = NoticeView;

    open spec fn view(&self) -> NoticeView {
        NoticeView {
            delivery: self.delivery,
            lines: string_views(self.lines@),
            image: match self.image {
                Some((url, description)) => Some((url@, description@)),
                None => None,
            },
            invite_row: match self.invite_row {
                Some(targets) => Some(target_views(targets@)),
                None => None,
            },
        }
    }
}

/// The VRChat user a message is about, if it is about a friend.
pub open spec fn event_user_id(e: RelayEvent) -> Option<Seq<char>> {
    match e {
        RelayEvent::FriendAdd { user_id, .. } => Some(user_id@),
        RelayEvent::FriendDelete { user_id } => Some(user_id@),
        RelayEvent::FriendOnline { user_id, .. } => Some(user_id@),
        RelayEvent::FriendActive { user_id, .. } => Some(user_id@),
        RelayEvent::FriendOffline { user_id, .. } => Some(user_id@),
        RelayEvent::FriendUpdate { user_id, .. } => Some(user_id@),
        RelayEvent::FriendLocation { user_id, .. } => Some(user_id@),
        RelayEvent::Unnotified => None,
    }
}

/// The name of what happened, as the title shows it.
pub open spec fn event_action(e: RelayEvent) -> Seq<char> {
    match e {
        RelayEvent::FriendAdd { .. } => "FriendAdd"@,
        RelayEvent::FriendDelete { .. } => "FriendDelete"@,
        RelayEvent::FriendOnline { .. } => "FriendOnline"@,
        RelayEvent::FriendActive { .. } => "FriendActive"@,
        RelayEvent::FriendOffline { .. } => "FriendOffline"@,
        RelayEvent::FriendUpdate { .. } => "FriendUpdate"@,
        RelayEvent::FriendLocation { .. } => "FriendLocation"@,
        RelayEvent::Unnotified => ""@,
    }
}

/// The profile that came with the message, if any.
pub open spec fn event_profile(e: RelayEvent) -> Option<Profile> {
    match e {
        RelayEvent::FriendAdd { profile, .. } => Some(profile),
        RelayEvent::FriendOnline { profile, .. } => Some(profile),
        RelayEvent::FriendActive { profile, .. } => Some(profile),
        RelayEvent::FriendUpdate { profile, .. } => Some(profile),
        RelayEvent::FriendLocation { profile, .. } => Some(profile),
        _ => None,
    }
}

/// The lines that a message adds after the title and profile.
pub open spec fn event_lines(e: RelayEvent) -> Seq<Seq<char>> {
    match e {
        RelayEvent::FriendOnline { platform, location, can_request_invite, .. } => seq![
            labelled_text("Platform"@, platform_text(platform@)),
            labelled_text("Location"@, location_text(location@)),
            labelled_text("Can Request Invite"@, bool_text(can_request_invite)),
        ],
        RelayEvent::FriendActive { platform, .. } => seq![labelled_text("Platform"@, platform_text(platform@))],
        RelayEvent::FriendOffline { platform, .. } => seq![labelled_text("Platform"@, platform_text(platform@))],
        RelayEvent::FriendUpdate { profile, .. } => place_lines(profile.places),
        RelayEvent::FriendLocation {
            location,
            traveling_to_location,
            world_id,
            can_request_invite,
            ..
        } => seq![
            labelled_text("Location"@, location_text(location@)),
            labelled_text("Traveling to Location"@, location_text(traveling_to_location@)),
            labelled_text("World Id"@, world_id@),
            labelled_text("Can Request Invite"@, bool_text(can_request_invite)),
        ],
        _ => seq![],
    }
}

/// The row of invite buttons of a message: always for the location of a friend who
/// came online or moved, for the places of an updated friend when there are any.
pub open spec fn event_invite_row(e: RelayEvent) -> Option<Seq<(Seq<char>, Seq<char>)>> {
    match e {
        RelayEvent::FriendOnline { location, .. } => Some(invite_targets_of(seq![location@])),
        RelayEvent::FriendLocation { location, traveling_to_location, .. } => Some(
            invite_targets_of(seq![location@, traveling_to_location@]),
        ),
        RelayEvent::FriendUpdate { profile, .. } => if place_targets(profile.places).len() > 0 {
            Some(place_targets(profile.places))
        } else {
            None
        },
        _ => None,
    }
}

/// The lines of a notice about a message for a followed user shown as `backup_name`:
/// the title, with the profile's status, biography and links when a profile came
/// with it, then the message's own lines.
pub open spec fn event_notice_lines(e: RelayEvent, backup_name: Seq<char>) -> Seq<Seq<char>> {
    match event_profile(e) {
        Some(p) => seq![
            user_title_of(event_action(e), backup_name, p.display_name@),
            status_line_of(p.state@, p.status@, p.status_description@),
            bio_of(p.bio@),
            bio_links_of(string_views(p.bio_links@)),
        ] + event_lines(e),
        None => seq![title_of(event_action(e), backup_name)] + event_lines(e),
    }
}

/// The profile image and its description, when a profile came with the message.
pub open spec fn event_image(e: RelayEvent) -> Option<(Seq<char>, Seq<char>)> {
    match event_profile(e) {
        Some(p) => Some((profile_image_of(p), image_description_of(p.display_name@))),
        None => None,
    }
}

/// The lines of the notice sent to the owner about a message that could not be decoded.
pub open spec fn undecodable_lines(error: Seq<char>, data: Seq<char>) -> Seq<Seq<char>> {
    seq![
        "# Failed to Deserialize Websocket Message"@,
        "Error: `"@ + error + "`"@,
        "Data: ```\n"@ + data + "\n```"@,
    ]
}

/// The notice that the relay sends for what came in: for a message about a friend who
/// is followed, a notice to the Discord users who forward the first followed user with
/// that id; for an undecodable message, a notice to the owner; else nothing.
pub open spec fn expected_notice(followed: Seq<TrackedUser>, incoming: Incoming) -> Option<NoticeView> {
    match incoming {
        Incoming::Event(e) => match event_user_id(e) {
            Some(uid) => match tracked_ids(followed).index_of_first(uid) {
                Some(k) => Some(
                    NoticeView {
                        delivery: Delivery::Forwards(k as usize),
                        lines: event_notice_lines(e, followed[k].backup_name@),
                        image: event_image(e),
                        invite_row: event_invite_row(e),
                    },
                ),
                None => None,
            },
            None => None,
        },
        Incoming::Undecodable { error, data } => Some(
            NoticeView {
                delivery: Delivery::Owner,
                lines: undecodable_lines(error@, data@),
                image: None,
                invite_row: None,
            },
        ),
        Incoming::Failed => None,
    }
}

/// The index of the first followed user with the VRChat id, if any.
pub fn find_tracked(followed: &[TrackedUser], vrc_user_id: &str) -> (res: Option<usize>)
    ensures
        match res {
            Some(k) => tracked_ids(followed@).index_of_first(vrc_user_id@) == Some(k as int),
            None => tracked_ids(followed@).index_of_first(vrc_user_id@) is None,
        },
{
    let ghost ids = tracked_ids(followed@);
    let mut k: usize = 0;
    while k < followed.len()
        invariant
            ids == tracked_ids(followed@),
            k <= followed@.len(),
            forall|j: int| 0 <= j < k ==> ids[j] != vrc_user_id@,
        decreases followed@.len() - k,
    {
        if crate::text::str_equals(followed[k].vrc_user_id.as_str(), vrc_user_id) {
            proof {
                assert(ids[k as int] == vrc_user_id@);
                ids.index_of_first_ensures(vrc_user_id@);
            }
            return Some(k);
        }
        k = k + 1;
    }
    proof {
        ids.index_of_first_ensures(vrc_user_id@);
    }
    None
}

fn event_user(e: &RelayEvent) -> (res: Option<&str>)
    ensures
        match res {
            Some(u) => event_user_id(*e) == Some(u@),
            None => event_user_id(*e) is None,
        },
{
    match e {
        RelayEvent::FriendAdd { user_id, .. } => Some(user_id.as_str()),
        RelayEvent::FriendDelete { user_id } => Some(user_id.as_str()),
        RelayEvent::FriendOnline { user_id, .. } => Some(user_id.as_str()),
        RelayEvent::FriendActive { user_id, .. } => Some(user_id.as_str()),
        RelayEvent::FriendOffline { user_id, .. } => Some(user_id.as_str()),
        RelayEvent::FriendUpdate { user_id, .. } => Some(user_id.as_str()),
        RelayEvent::FriendLocation { user_id, .. } => Some(user_id.as_str()),
        RelayEvent::Unnotified => None,
    }
}

fn event_action_name(e: &RelayEvent) -> (res: &'static str)
    ensures
        res@ == event_action(*e),
{
    match e {
        RelayEvent::FriendAdd { .. } => "FriendAdd",
        RelayEvent::FriendDelete { .. } => "FriendDelete",
        RelayEvent::FriendOnline { .. } => "FriendOnline",
        RelayEvent::FriendActive { .. } => "FriendActive",
        RelayEvent::FriendOffline { .. } => "FriendOffline",
        RelayEvent::FriendUpdate { .. } => "FriendUpdate",
        RelayEvent::FriendLocation { .. } => "FriendLocation",
        RelayEvent::Unnotified => "",
    }
}

fn event_profile_of(e: &RelayEvent) -> (res: Option<&Profile>)
    ensures
        match res {
            Some(p) => event_profile(*e) == Some(*p),
            None => event_profile(*e) is None,
        },
{
    match e {
        RelayEvent::FriendAdd { profile, .. } => Some(profile),
        RelayEvent::FriendOnline { profile, .. } => Some(profile),
        RelayEvent::FriendActive { profile, .. } => Some(profile),
        RelayEvent::FriendUpdate { profile, .. } => Some(profile),
        RelayEvent::FriendLocation { profile, .. } => Some(profile),
        _ => None,
    }
}

fn event_extra_lines(e: &RelayEvent) -> (res: Vec<String>)
    ensures
        string_views(res@) == event_lines(*e),
{
    match e {
        RelayEvent::FriendOnline { platform, location, can_request_invite, .. } => {
            friend_online_lines(platform, location, *can_request_invite)
        },
        RelayEvent::FriendActive { platform, .. } => {
            let res = vec![platform_line(platform)];
            assert(string_views(res@) =~= event_lines(*e));
            res
        },
        RelayEvent::FriendOffline { platform, .. } => {
            let res = vec![platform_line(platform)];
            assert(string_views(res@) =~= event_lines(*e));
            res
        },
        RelayEvent::FriendUpdate { profile, .. } => profile.places.lines(),
        RelayEvent::FriendLocation {
            location,
            traveling_to_location,
            world_id,
            can_request_invite,
            ..
        } => friend_location_lines(location, traveling_to_location, world_id.as_str(), *can_request_invite),
        _ => {
            let res: Vec<String> = Vec::new();
            assert(string_views(res@) =~= event_lines(*e));
            res
        },
    }
}

fn event_row(e: &RelayEvent) -> (res: Option<Vec<(String, String)>>)
    ensures
        match res {
            Some(t) => event_invite_row(*e) == Some(target_views(t@)),
            None => event_invite_row(*e) is None,
        },
{
    match e {
        RelayEvent::FriendOnline { location, .. } => {
            let locs = vec![location.clone_location()];
            let none: Vec<Option<Location>> = Vec::new();
            let res = invite_targets(locs.as_slice(), none.as_slice());
            assert(location_views(locs@) =~= seq![location@]);
            assert(present(optional_location_views(none@)) =~= Seq::<SpecLocation>::empty());
            assert(seq![location@] + Seq::<SpecLocation>::empty() =~= seq![location@]);
            Some(res)
        },
        RelayEvent::FriendLocation { location, traveling_to_location, .. } => {
            let locs = vec![location.clone_location(), traveling_to_location.clone_location()];
            let none: Vec<Option<Location>> = Vec::new();
            let res = invite_targets(locs.as_slice(), none.as_slice());
            assert(location_views(locs@) =~= seq![location@, traveling_to_location@]);
            assert(present(optional_location_views(none@)) =~= Seq::<SpecLocation>::empty());
            assert(seq![location@, traveling_to_location@] + Seq::<SpecLocation>::empty() =~= seq![
                location@,
                traveling_to_location@,
            ]);
            Some(res)
        },
        RelayEvent::FriendUpdate { profile, .. } => {
            let targets = profile.places.invite_targets();
            if targets.len() > 0 {
                Some(targets)
            } else {
                None
            }
        },
        _ => None,
    }
}

/// The notice that the relay sends for what came in, if any; see `expected_notice`.
pub fn notice_for(followed: &[TrackedUser], incoming: &Incoming) -> (res: Option<Notice>)
    ensures
        match res {
            Some(n) => expected_notice(followed@, *incoming) == Some(n@),
            None => expected_notice(followed@, *incoming) is None,
        },
{
    match incoming {
        Incoming::Failed => None,
        Incoming::Undecodable { error, data } => {
            let lines = vec![
                String::from_str(undecodable_title()),
                undecodable_error_line(error.as_str()),
                undecodable_data_line(data.as_str()),
            ];
            let n = Notice { delivery: Delivery::Owner, lines, image: None, invite_row: None };
            assert(n@.lines =~= undecodable_lines(error@, data@));
            Some(n)
        },
        Incoming::Event(e) => {
            let uid = match event_user(e) {
                Some(u) => u,
                None => return None,
            };
            let k = match find_tracked(followed, uid) {
                Some(k) => k,
                None => return None,
            };
            proof {
                tracked_ids(followed@).index_of_first_ensures(uid@);
            }
            let backup_name = followed[k].backup_name.as_str();
            let action = event_action_name(e);
            let mut lines: Vec<String>;
            let image: Option<(String, String)>;
            match event_profile_of(e) {
                Some(p) => {
                    lines = vec![
                        user_title(action, backup_name, p.display_name.as_str()),
                        status_line(p.state.as_str(), p.status.as_str(), p.status_description.as_str()),
                        bio_text(p.bio.as_str()),
                        bio_links_text(p.bio_links.as_slice()),
                    ];
                    let url = get_url(
                        match &p.icon_url {
                            Some(icon) => Some(icon.as_str()),
                            None => None,
                        },
                        p.profile_pic_override_thumbnail.as_str(),
                        p.current_avatar_thumbnail_image_url.as_str(),
                    );
                    image = Some((String::from_str(url), image_description(p.display_name.as_str())));
                },
                None => {
                    lines = vec![title(action, backup_name)];
                    image = None;
                },
            }
            let ghost head = string_views(lines@);
            let mut extra = event_extra_lines(e);
            lines.append(&mut extra);
            assert(string_views(lines@) =~= head + event_lines(*e));
            let n = Notice { delivery: Delivery::Forwards(k), lines, image, invite_row: event_row(e) };
            assert(n@.lines =~= event_notice_lines(*e, followed@[k as int].backup_name@));
            Some(n)
        },
    }
}

/// Who is told: a notice goes to the owner only for a message that could not be
/// decoded, and otherwise only to those who forward a followed user whose id is the
/// one the message is about; a message about someone who is not followed, a message
/// about no friend, or another failure of the socket is told to nobody.
pub proof fn lemma_notice_routing(followed: Seq<TrackedUser>, incoming: Incoming)
    requires
        followed.len() <= usize::MAX,
    ensures
        expected_notice(followed, incoming) matches Some(n) ==> (n.delivery is Owner <==> incoming is Undecodable),
        expected_notice(followed, incoming) matches Some(n) ==> (n.delivery matches Delivery::Forwards(k)
            ==> 0 <= k < followed.len() && (incoming matches Incoming::Event(e) && event_user_id(e)
            == Some(followed[k as int].vrc_user_id@))),
        expected_notice(followed, incoming) is None <==> (incoming is Failed || (incoming matches Incoming::Event(e) && (event_user_id(e) is None
            || !tracked_ids(followed).contains(event_user_id(e)->0)))),
{
    if let Incoming::Event(e) = incoming {
        if let Some(uid) = event_user_id(e) {
            tracked_ids(followed).index_of_first_ensures(uid);
        }
    }
}

/// The title, status, biography and links lines that a notice shows of a profile,
/// for a message named `action` about the followed user shown as `backup_name`.
pub open spec fn profile_lines_shown(action: Seq<char>, backup_name: Seq<char>, p: Profile) -> Seq<Seq<char>> {
    seq![
        "# "@ + action + " - "@ + backup_name + " - "@ + p.display_name@,
        "State: "@ + p.state@ + ", Status: "@ + p.status@ + ", Description: "@ + p.status_description@,
        "Bio:\n "@ + p.bio@,
        "Bio Links: "@ + link_lines(string_views(p.bio_links@)),
    ]
}

/// The picture that a notice shows of a profile, with its description: the icon,
/// else a non-empty profile picture, else the avatar's thumbnail.
pub open spec fn profile_image_shown(p: Profile) -> Option<(Seq<char>, Seq<char>)> {
    let url = match p.icon_url {
        Some(icon) => icon@,
        None => if p.profile_pic_override_thumbnail@.len() > 0 {
            p.profile_pic_override_thumbnail@
        } else {
            p.current_avatar_thumbnail_image_url@
        },
    };
    Some((url, "Profile Image of - "@ + p.display_name@))
}

/// The invite target of a location, as a sequence of none or one.
pub open spec fn target_list(l: SpecLocation) -> Seq<(Seq<char>, Seq<char>)> {
    match invite_target(l) {
        Some(t) => seq![t],
        None => seq![],
    }
}

/// The invite target of an optional place text, as a sequence of none or one.
pub open spec fn place_target_list(v: Option<String>) -> Seq<(Seq<char>, Seq<char>)> {
    match v {
        Some(s) => target_list(location_from_text(s@)),
        None => seq![],
    }
}

/// The followed user with index `k` is the first one with the VRChat id `uid`.
pub open spec fn first_followed(followed: Seq<TrackedUser>, k: int, uid: Seq<char>) -> bool {
    &&& 0 <= k < followed.len()
    &&& followed[k].vrc_user_id@ == uid
    &&& forall|j: int| 0 <= j < k ==> followed[j].vrc_user_id@ != uid
}

proof fn lemma_first_followed_found(followed: Seq<TrackedUser>, k: int, uid: Seq<char>)
    requires
        first_followed(followed, k, uid),
    ensures
        tracked_ids(followed).index_of_first(uid) == Some(k),
{
    let ids = tracked_ids(followed);
    assert(ids[k] == uid);
    assert(ids.contains(uid));
    ids.index_of_first_ensures(uid);
    let i = ids.index_of_first(uid)->0;
    if i < k {
        assert(ids[i] == followed[i].vrc_user_id@);
    }
}

proof fn lemma_one_target(a: SpecLocation)
    ensures
        invite_targets_of(seq![a]) == target_list(a),
{
    assert(seq![a].drop_last() =~= Seq::<SpecLocation>::empty());
    assert(invite_targets_of(Seq::<SpecLocation>::empty()) =~= Seq::<(Seq<char>, Seq<char>)>::empty());
    assert(Seq::<(Seq<char>, Seq<char>)>::empty().push(invite_target(a)->0) =~= seq![invite_target(a)->0]);
}

proof fn lemma_two_targets(a: SpecLocation, b: SpecLocation)
    ensures
        invite_targets_of(seq![a, b]) == target_list(a) + target_list(b),
{
    lemma_one_target(a);
    assert(seq![a, b].drop_last() =~= seq![a]);
    assert(target_list(a) + Seq::<(Seq<char>, Seq<char>)>::empty() =~= target_list(a));
    if invite_target(b) is Some {
        assert(target_list(a).push(invite_target(b)->0) =~= target_list(a) + seq![invite_target(b)->0]);
    }
}

proof fn lemma_place_targets(p: UserPlaces)
    ensures
        place_targets(p) == place_target_list(p.location) + place_target_list(p.traveling_to_location),
{
    let o1 = optional_location(p.location);
    let o2 = optional_location(p.traveling_to_location);
    let two = seq![o1, o2];
    assert(two.drop_last() =~= seq![o1]);
    assert(seq![o1].drop_last() =~= Seq::<Option<SpecLocation>>::empty());
    assert(present(Seq::<Option<SpecLocation>>::empty()) =~= Seq::<SpecLocation>::empty());
    let e = Seq::<(Seq<char>, Seq<char>)>::empty();
    match (o1, o2) {
        (Some(a), Some(b)) => {
            assert(present(seq![o1]) =~= seq![a]);
            assert(present(two) =~= seq![a, b]);
            lemma_two_targets(a, b);
        },
        (Some(a), None) => {
            assert(present(seq![o1]) =~= seq![a]);
            assert(present(two) =~= seq![a]);
            lemma_one_target(a);
            assert(target_list(a) + e =~= target_list(a));
        },
        (None, Some(b)) => {
            assert(present(seq![o1]) =~= Seq::<SpecLocation>::empty());
            assert(present(two) =~= seq![b]);
            lemma_one_target(b);
            assert(e + target_list(b) =~= target_list(b));
        },
        (None, None) => {
            assert(present(seq![o1]) =~= Seq::<SpecLocation>::empty());
            assert(present(two) =~= Seq::<SpecLocation>::empty());
            assert(invite_targets_of(Seq::<SpecLocation>::empty()) =~= e);
            assert(e + e =~= e);
        },
    }
}

/// A friend added by a followed user is told to those who forward the first followed
/// user with that id: the title with the friend's display name, the state, status,
/// biography and links of the profile, and the profile's picture; no invite buttons.
pub proof fn lemma_friend_add_notice(followed: Seq<TrackedUser>, k: int, user_id: String, profile: Profile)
    requires
        followed.len() <= usize::MAX,
        first_followed(followed, k, user_id@),
    ensures
        expected_notice(followed, Incoming::Event(RelayEvent::FriendAdd { user_id, profile })) == Some(
            (NoticeView {
                delivery: Delivery::Forwards(k as usize),
                lines: profile_lines_shown("FriendAdd"@, followed[k].backup_name@, profile),
                image: profile_image_shown(profile),
                invite_row: None,
            }),
        ),
{
    lemma_first_followed_found(followed, k, user_id@);
    let e = RelayEvent::FriendAdd { user_id, profile };
    assert(event_notice_lines(e, followed[k].backup_name@) =~= profile_lines_shown(
        "FriendAdd"@,
        followed[k].backup_name@,
        profile,
    ));
}

/// A followed friend who comes online is told with the profile lines and picture,
/// then the platform, location and whether an invite can be requested, and a row of
/// invite buttons holding the invite target of the location, if it has one.
pub proof fn lemma_friend_online_notice(
    followed: Seq<TrackedUser>,
    k: int,
    user_id: String,
    profile: Profile,
    platform: Platform,
    location: Location,
    can_request_invite: bool,
)
    requires
        followed.len() <= usize::MAX,
        first_followed(followed, k, user_id@),
    ensures
        expected_notice(
            followed,
            Incoming::Event(RelayEvent::FriendOnline { user_id, profile, platform, location, can_request_invite }),
        ) == Some(
            (NoticeView {
                delivery: Delivery::Forwards(k as usize),
                lines: profile_lines_shown("FriendOnline"@, followed[k].backup_name@, profile) + seq![
                    labelled_text("Platform"@, platform_text(platform@)),
                    labelled_text("Location"@, location_text(location@)),
                    labelled_text("Can Request Invite"@, bool_text(can_request_invite)),
                ],
                image: profile_image_shown(profile),
                invite_row: Some(target_list(location@)),
            }),
        ),
{
    lemma_first_followed_found(followed, k, user_id@);
    lemma_one_target(location@);
    let e = RelayEvent::FriendOnline { user_id, profile, platform, location, can_request_invite };
    assert(event_notice_lines(e, followed[k].backup_name@) =~= profile_lines_shown(
        "FriendOnline"@,
        followed[k].backup_name@,
        profile,
    ) + event_lines(e));
}

/// A followed friend who becomes active is told with the profile lines and picture,
/// then the platform; no invite buttons.
pub proof fn lemma_friend_active_notice(
    followed: Seq<TrackedUser>,
    k: int,
    user_id: String,
    profile: Profile,
    platform: Platform,
)
    requires
        followed.len() <= usize::MAX,
        first_followed(followed, k, user_id@),
    ensures
        expected_notice(followed, Incoming::Event(RelayEvent::FriendActive { user_id, profile, platform }))
            == Some(
            (NoticeView {
                delivery: Delivery::Forwards(k as usize),
                lines: profile_lines_shown("FriendActive"@, followed[k].backup_name@, profile) + seq![
                    labelled_text("Platform"@, platform_text(platform@)),
                ],
                image: profile_image_shown(profile),
                invite_row: None,
            }),
        ),
{
    lemma_first_followed_found(followed, k, user_id@);
    let e = RelayEvent::FriendActive { user_id, profile, platform };
    assert(event_notice_lines(e, followed[k].backup_name@) =~= profile_lines_shown(
        "FriendActive"@,
        followed[k].backup_name@,
        profile,
    ) + event_lines(e));
}

/// A followed friend who goes offline is told with the title and the platform only.
pub proof fn lemma_friend_offline_notice(followed: Seq<TrackedUser>, k: int, user_id: String, platform: Platform)
    requires
        followed.len() <= usize::MAX,
        first_followed(followed, k, user_id@),
    ensures
        expected_notice(followed, Incoming::Event(RelayEvent::FriendOffline { user_id, platform })) == Some(
            (NoticeView {
                delivery: Delivery::Forwards(k as usize),
                lines: seq![
                    "# "@ + "FriendOffline"@ + " - "@ + followed[k].backup_name@,
                    labelled_text("Platform"@, platform_text(platform@)),
                ],
                image: None,
                invite_row: None,
            }),
        ),
{
    lemma_first_followed_found(followed, k, user_id@);
    let e = RelayEvent::FriendOffline { user_id, platform };
    assert(event_notice_lines(e, followed[k].backup_name@) =~= seq![
        "# "@ + "FriendOffline"@ + " - "@ + followed[k].backup_name@,
        labelled_text("Platform"@, platform_text(platform@)),
    ]);
}

/// A followed friend who is removed is told with the title only.
pub proof fn lemma_friend_delete_notice(followed: Seq<TrackedUser>, k: int, user_id: String)
    requires
        followed.len() <= usize::MAX,
        first_followed(followed, k, user_id@),
    ensures
        expected_notice(followed, Incoming::Event(RelayEvent::FriendDelete { user_id })) == Some(
            (NoticeView {
                delivery: Delivery::Forwards(k as usize),
                lines: seq!["# "@ + "FriendDelete"@ + " - "@ + followed[k].backup_name@],
                image: None,
                invite_row: None,
            }),
        ),
{
    lemma_first_followed_found(followed, k, user_id@);
    let e = RelayEvent::FriendDelete { user_id };
    assert(event_notice_lines(e, followed[k].backup_name@) =~= seq![
        "# "@ + "FriendDelete"@ + " - "@ + followed[k].backup_name@,
    ]);
}

/// A followed friend whose profile changed is told with the profile lines and picture,
/// then a line for each known place; the invite buttons hold the invite targets of
/// the location and then of the destination, and there is no row when there are none.
pub proof fn lemma_friend_update_notice(followed: Seq<TrackedUser>, k: int, user_id: String, profile: Profile)
    requires
        followed.len() <= usize::MAX,
        first_followed(followed, k, user_id@),
    ensures
        ({
            let targets = place_target_list(profile.places.location) + place_target_list(
                profile.places.traveling_to_location,
            );
            expected_notice(followed, Incoming::Event(RelayEvent::FriendUpdate { user_id, profile })) == Some(
                (NoticeView {
                    delivery: Delivery::Forwards(k as usize),
                    lines: profile_lines_shown("FriendUpdate"@, followed[k].backup_name@, profile) + place_lines(
                        profile.places,
                    ),
                    image: profile_image_shown(profile),
                    invite_row: if targets.len() > 0 {
                        Some(targets)
                    } else {
                        None
                    },
                }),
            )
        }),
{
    lemma_first_followed_found(followed, k, user_id@);
    lemma_place_targets(profile.places);
    let e = RelayEvent::FriendUpdate { user_id, profile };
    assert(event_notice_lines(e, followed[k].backup_name@) =~= profile_lines_shown(
        "FriendUpdate"@,
        followed[k].backup_name@,
        profile,
    ) + event_lines(e));
}

/// A followed friend who moves is told with the profile lines and picture, then the
/// location, the destination, the world and whether an invite can be requested; the
/// invite buttons hold the invite target of the location and then of the destination.
pub proof fn lemma_friend_location_notice(
    followed: Seq<TrackedUser>,
    k: int,
    user_id: String,
    profile: Profile,
    location: Location,
    traveling_to_location: Location,
    world_id: String,
    can_request_invite: bool,
)
    requires
        followed.len() <= usize::MAX,
        first_followed(followed, k, user_id@),
    ensures
        expected_notice(
            followed,
            Incoming::Event(
                RelayEvent::FriendLocation {
                    user_id,
                    profile,
                    location,
                    traveling_to_location,
                    world_id,
                    can_request_invite,
                },
            ),
        ) == Some(
            (NoticeView {
                delivery: Delivery::Forwards(k as usize),
                lines: profile_lines_shown("FriendLocation"@, followed[k].backup_name@, profile) + seq![
                    labelled_text("Location"@, location_text(location@)),
                    labelled_text("Traveling to Location"@, location_text(traveling_to_location@)),
                    labelled_text("World Id"@, world_id@),
                    labelled_text("Can Request Invite"@, bool_text(can_request_invite)),
                ],
                image: profile_image_shown(profile),
                invite_row: Some(target_list(location@) + target_list(traveling_to_location@)),
            }),
        ),
{
    lemma_first_followed_found(followed, k, user_id@);
    lemma_two_targets(location@, traveling_to_location@);
    let e = RelayEvent::FriendLocation {
        user_id,
        profile,
        location,
        traveling_to_location,
        world_id,
        can_request_invite,
    };
    assert(event_notice_lines(e, followed[k].backup_name@) =~= profile_lines_shown(
        "FriendLocation"@,
        followed[k].backup_name@,
        profile,
    ) + event_lines(e));
}

/// An undecodable message is told to the owner with the error and the data.
pub proof fn lemma_undecodable_notice(followed: Seq<TrackedUser>, error: String, data: String)
    ensures
        expected_notice(followed, Incoming::Undecodable { error, data }) == Some(
            (NoticeView {
                delivery: Delivery::Owner,
                lines: seq![
                    "# Failed to Deserialize Websocket Message"@,
                    "Error: `"@ + error@ + "`"@,
                    "Data: ```\n"@ + data@ + "\n```"@,
                ],
                image: None,
                invite_row: None,
            }),
        ),
{
}

proof fn lemma_in_concat<A>(a: Seq<A>, b: Seq<A>, x: A)
    ensures
        (a.contains(x) || b.contains(x)) ==> (a + b).contains(x),
{
    if a.contains(x) {
        let i = choose|i: int| 0 <= i < a.len() && a[i] == x;
        assert((a + b)[i] == x);
    } else if b.contains(x) {
        let i = choose|i: int| 0 <= i < b.len() && b[i] == x;
        assert((a + b)[a.len() + i] == x);
    }
}

/// The number of places that are known.
pub open spec fn known_places(p: UserPlaces) -> int {
    (if p.location is Some { 1int } else { 0 }) + (if p.world_id is Some { 1int } else { 0 }) + (if p.instance_id is Some {
        1int
    } else {
        0
    }) + (if p.traveling_to_world is Some { 1int } else { 0 }) + (if p.traveling_to_location is Some {
        1int
    } else {
        0
    }) + (if p.traveling_to_instance is Some { 1int } else { 0 })
}

/// Every known place is shown, each on one line `label: value`, and nothing else is.
pub proof fn lemma_place_lines_show_every_known_place(p: UserPlaces)
    ensures
        p.location matches Some(v) ==> place_lines(p).contains(labelled_text("Location"@, v@)),
        p.world_id matches Some(v) ==> place_lines(p).contains(labelled_text("World Id"@, v@)),
        p.instance_id matches Some(v) ==> place_lines(p).contains(labelled_text("Instance Id"@, v@)),
        p.traveling_to_world matches Some(v) ==> place_lines(p).contains(
            labelled_text("Traveling to World"@, v@),
        ),
        p.traveling_to_location matches Some(v) ==> place_lines(p).contains(
            labelled_text("Traveling to Location"@, v@),
        ),
        p.traveling_to_instance matches Some(v) ==> place_lines(p).contains(
            labelled_text("Traveling to Instance"@, v@),
        ),
        place_lines(p).len() == known_places(p),
{
    let l1 = optional_line("Location"@, p.location);
    let l2 = optional_line("World Id"@, p.world_id);
    let l3 = optional_line("Instance Id"@, p.instance_id);
    let l4 = optional_line("Traveling to World"@, p.traveling_to_world);
    let l5 = optional_line("Traveling to Location"@, p.traveling_to_location);
    let l6 = optional_line("Traveling to Instance"@, p.traveling_to_instance);
    let s2 = l1 + l2;
    let s3 = s2 + l3;
    let s4 = s3 + l4;
    let s5 = s4 + l5;
    let s6 = s5 + l6;
    assert(place_lines(p) == s6);
    let ls = seq![l1, l2, l3, l4, l5, l6];
    assert forall|i: int, x: Seq<char>| 0 <= i < 6 && #[trigger] ls[i].contains(x) implies s6.contains(x) by {
        if i == 0 {
            lemma_in_concat(l1, l2, x);
        } else if i == 1 {
            lemma_in_concat(l1, l2, x);
        } else if i == 2 {
            lemma_in_concat(s2, l3, x);
        } else if i == 3 {
            lemma_in_concat(s3, l4, x);
        } else if i == 4 {
            lemma_in_concat(s4, l5, x);
        } else {
            lemma_in_concat(s5, l6, x);
        }
        lemma_in_concat(s2, l3, x);
        lemma_in_concat(s3, l4, x);
        lemma_in_concat(s4, l5, x);
        lemma_in_concat(s5, l6, x);
    }
    if let Some(v) = p.location {
        assert(ls[0].contains(labelled_text("Location"@, v@))) by { assert(l1[0] == labelled_text("Location"@, v@)); }
    }
    if let Some(v) = p.world_id {
        assert(ls[1].contains(labelled_text("World Id"@, v@))) by { assert(l2[0] == labelled_text("World Id"@, v@)); }
    }
    if let Some(v) = p.instance_id {
        assert(ls[2].contains(labelled_text("Instance Id"@, v@))) by { assert(l3[0] == labelled_text("Instance Id"@, v@)); }
    }
    if let Some(v) = p.traveling_to_world {
        assert(ls[3].contains(labelled_text("Traveling to World"@, v@))) by {
            assert(l4[0] == labelled_text("Traveling to World"@, v@));
        }
    }
    if let Some(v) = p.traveling_to_location {
        assert(ls[4].contains(labelled_text("Traveling to Location"@, v@))) by {
            assert(l5[0] == labelled_text("Traveling to Location"@, v@));
        }
    }
    if let Some(v) = p.traveling_to_instance {
        assert(ls[5].contains(labelled_text("Traveling to Instance"@, v@))) by {
            assert(l6[0] == labelled_text("Traveling to Instance"@, v@));
        }
    }
}

/// The links are shown one after another, each as `\n 1. ` and the link: the text of
/// two lists of links joined is the text of the first followed by that of the second.
pub proof fn lemma_link_lines_join(a: Seq<Seq<char>>, b: Seq<Seq<char>>)
    ensures
        link_lines(a + b) == link_lines(a) + link_lines(b),
        link_lines(seq![]) == Seq::<char>::empty(),
        forall|x: Seq<char>| #[trigger] link_lines(seq![x]) == "\n 1. "@ + x,
    decreases b.len(),
{
    assert forall|x: Seq<char>| #[trigger] link_lines(seq![x]) == "\n 1. "@ + x by {
        assert(seq![x].drop_last() =~= Seq::<Seq<char>>::empty());
        assert(seq![x].last() == x);
        assert(link_lines(Seq::<Seq<char>>::empty()) =~= Seq::<char>::empty());
        assert(Seq::<char>::empty() + "\n 1. "@ + x =~= "\n 1. "@ + x);
    }
    if b.len() == 0 {
        assert(a + b =~= a);
        assert(link_lines(a) + Seq::<char>::empty() =~= link_lines(a));
    } else {
        lemma_link_lines_join(a, b.drop_last());
        assert((a + b).drop_last() =~= a + b.drop_last());
        assert((a + b).last() == b.last());
        assert(link_lines(a) + link_lines(b.drop_last()) + "\n 1. "@ + b.last() =~= link_lines(a) + (
        link_lines(b.drop_last()) + "\n 1. "@ + b.last()));
    }
}

} // verus!
