//! Bearer tokens: what they claim, how the claims are written down and
//! signed, and how a presented token is checked.
//!
//! A token is a signed statement of three claims: what it is for, when it
//! expires, and which scopes it carries. The claims are written as the JSON
//! object `{"exp":…,"purpose":"…","scopes":[…]}`, which is signed with a
//! secret that only the server knows.

use crate::number::{
    int_text, lemma_int_text_chars, lemma_parse_int_text, parse_int, parse_integer, render_int,
};
use crate::text::{
    chars_of, cut, free_of, join, join_with, lemma_cut_concat, lemma_split_join,
    lemma_strip_concat, split, split_on, split_once, str_eq, strip, strip_prefix, views,
};
use crate::types::Timestamp;
use vstd::prelude::*;
use vstd::string::*;

verus! {

/// What a token is for.
#[derive(Debug, Clone, Copy, PartialEq, Eq, Structural)]
pub enum Purpose {
    /// Calling the interface.
    Access,
    /// Getting a new token.
    Refresh,
}

/// The name of a purpose in claims.
pub open spec fn purpose_name(p: Purpose) -> Seq<char> {
    match p {
        Purpose::Access => "Access"@,
        Purpose::Refresh => "Refresh"@,
    }
}

/// The purpose that a name denotes, if any.
pub open spec fn purpose_of_name(name: Seq<char>) -> Option<Purpose> {
    if name == "Access"@ {
        Some(Purpose::Access)
    } else if name == "Refresh"@ {
        Some(Purpose::Refresh)
    } else {
        None
    }
}

/// A permission that a token can carry.
#[derive(Debug, Clone, Copy, PartialEq, Eq, Hash, Structural)]
pub enum ScopeEnum {
    Openid,
    OfflineAccess,
    UserData,
    VehicleDeviceData,
    VehicleCmds,
    VehicleChargingCmds,
    EnergyDeviceData,
    EnergyCmds,
}

/// The name of a scope in requests and in claims.
pub open spec fn scope_name(s: ScopeEnum) -> Seq<char> {
    match s {
        ScopeEnum::Openid => "openid"@,
        ScopeEnum::OfflineAccess => "offline_access"@,
        ScopeEnum::UserData => "user_data"@,
        ScopeEnum::VehicleDeviceData => "vehicle_device_data"@,
        ScopeEnum::VehicleCmds => "vehicle_cmds"@,
        ScopeEnum::VehicleChargingCmds => "vehicle_charging_cmds"@,
        ScopeEnum::EnergyDeviceData => "energy_device_data"@,
        ScopeEnum::EnergyCmds => "energy_cmds"@,
    }
}

/// The scope that a name denotes, if any.
pub open spec fn scope_of_name(name: Seq<char>) -> Option<ScopeEnum> {
    if name == "openid"@ {
        Some(ScopeEnum::Openid)
    } else if name == "offline_access"@ {
        Some(ScopeEnum::OfflineAccess)
    } else if name == "user_data"@ {
        Some(ScopeEnum::UserData)
    } else if name == "vehicle_device_data"@ {
        Some(ScopeEnum::VehicleDeviceData)
    } else if name == "vehicle_cmds"@ {
        Some(ScopeEnum::VehicleCmds)
    } else if name == "vehicle_charging_cmds"@ {
        Some(ScopeEnum::VehicleChargingCmds)
    } else if name == "energy_device_data"@ {
        Some(ScopeEnum::EnergyDeviceData)
    } else if name == "energy_cmds"@ {
        Some(ScopeEnum::EnergyCmds)
    } else {
        None
    }
}

/// The scope with the given number in the order in which scopes are
/// written down.
pub open spec fn scope_at(i: int) -> ScopeEnum {
    if i == 0 {
        ScopeEnum::Openid
    } else if i == 1 {
        ScopeEnum::OfflineAccess
    } else if i == 2 {
        ScopeEnum::UserData
    } else if i == 3 {
        ScopeEnum::VehicleDeviceData
    } else if i == 4 {
        ScopeEnum::VehicleCmds
    } else if i == 5 {
        ScopeEnum::VehicleChargingCmds
    } else if i == 6 {
        ScopeEnum::EnergyDeviceData
    } else {
        ScopeEnum::EnergyCmds
    }
}

impl ScopeEnum {
    /// Reads the name of a scope.
    pub fn from_str(s: &str) -> (r: Result<Self, ()>)
        ensures
            r == match scope_of_name(s@) {
                Some(scope) => Ok::<ScopeEnum, ()>(scope),
                None => Err(()),
            },
    {
        if str_eq(s, "openid") {
            Ok(ScopeEnum::Openid)
        } else if str_eq(s, "offline_access") {
            Ok(ScopeEnum::OfflineAccess)
        } else if str_eq(s, "user_data") {
            Ok(ScopeEnum::UserData)
        } else if str_eq(s, "vehicle_device_data") {
            Ok(ScopeEnum::VehicleDeviceData)
        } else if str_eq(s, "vehicle_cmds") {
            Ok(ScopeEnum::VehicleCmds)
        } else if str_eq(s, "vehicle_charging_cmds") {
            Ok(ScopeEnum::VehicleChargingCmds)
        } else if str_eq(s, "energy_device_data") {
            Ok(ScopeEnum::EnergyDeviceData)
        } else if str_eq(s, "energy_cmds") {
            Ok(ScopeEnum::EnergyCmds)
        } else {
            Err(())
        }
    }

    /// The name of the scope.
    pub fn to_string(&self) -> (r: String)
        ensures
            r@ == scope_name(*self),
    {
        match self {
            ScopeEnum::Openid => "openid".to_owned(),
            ScopeEnum::OfflineAccess => "offline_access".to_owned(),
            ScopeEnum::UserData => "user_data".to_owned(),
            ScopeEnum::VehicleDeviceData => "vehicle_device_data".to_owned(),
            ScopeEnum::VehicleCmds => "vehicle_cmds".to_owned(),
            ScopeEnum::VehicleChargingCmds => "vehicle_charging_cmds".to_owned(),
            ScopeEnum::EnergyDeviceData => "energy_device_data".to_owned(),
            ScopeEnum::EnergyCmds => "energy_cmds".to_owned(),
        }
    }

    /// The scope with the given number in the order in which scopes are
    /// written down.
    pub fn nth(i: usize) -> (r: Self)
        requires
            i < 8,
        ensures
            r == scope_at(i as int),
    {
        if i == 0 {
            ScopeEnum::Openid
        } else if i == 1 {
            ScopeEnum::OfflineAccess
        } else if i == 2 {
            ScopeEnum::UserData
        } else if i == 3 {
            ScopeEnum::VehicleDeviceData
        } else if i == 4 {
            ScopeEnum::VehicleCmds
        } else if i == 5 {
            ScopeEnum::VehicleChargingCmds
        } else if i == 6 {
            ScopeEnum::EnergyDeviceData
        } else {
            ScopeEnum::EnergyCmds
        }
    }
}

/// A set of scopes: one flag per scope.
///
/// A hash set of scopes would rest on the hash that `derive` writes for
/// `ScopeEnum`, of which the verifier knows nothing, so that not even a
/// scope just put in could be shown to be in it. With flags, membership is
/// a field, the set is a plain value that claims can hold, and its view is
/// the set that every contract speaks of.
#[derive(Debug, Clone, Copy, PartialEq, Eq, Structural)]
pub struct ScopeSet {
    pub openid: bool,
    pub offline_access: bool,
    pub user_data: bool,
    pub vehicle_device_data: bool,
    pub vehicle_cmds: bool,
    pub vehicle_charging_cmds: bool,
    pub energy_device_data: bool,
    pub energy_cmds: bool,
}

impl View for ScopeSet {
    type V = Set<ScopeEnum>;

    /// The scopes in the set.
    open spec fn view(&self) -> Set<ScopeEnum> {
        Set::new(|s: ScopeEnum| self.has(s))
    }
}

impl ScopeSet {
    /// Whether the scope is in the set.
    pub open spec fn has(self, s: ScopeEnum) -> bool {
        match s {
            ScopeEnum::Openid => self.openid,
            ScopeEnum::OfflineAccess => self.offline_access,
            ScopeEnum::UserData => self.user_data,
            ScopeEnum::VehicleDeviceData => self.vehicle_device_data,
            ScopeEnum::VehicleCmds => self.vehicle_cmds,
            ScopeEnum::VehicleChargingCmds => self.vehicle_charging_cmds,
            ScopeEnum::EnergyDeviceData => self.energy_device_data,
            ScopeEnum::EnergyCmds => self.energy_cmds,
        }
    }

    /// The set with `s` added.
    pub open spec fn with(self, s: ScopeEnum) -> ScopeSet {
        match s {
            ScopeEnum::Openid => ScopeSet { openid: true, ..self },
            ScopeEnum::OfflineAccess => ScopeSet { offline_access: true, ..self },
            ScopeEnum::UserData => ScopeSet { user_data: true, ..self },
            ScopeEnum::VehicleDeviceData => ScopeSet { vehicle_device_data: true, ..self },
            ScopeEnum::VehicleCmds => ScopeSet { vehicle_cmds: true, ..self },
            ScopeEnum::VehicleChargingCmds => ScopeSet { vehicle_charging_cmds: true, ..self },
            ScopeEnum::EnergyDeviceData => ScopeSet { energy_device_data: true, ..self },
            ScopeEnum::EnergyCmds => ScopeSet { energy_cmds: true, ..self },
        }
    }

    /// The set without any scope.
    pub open spec fn none() -> ScopeSet {
        ScopeSet {
            openid: false,
            offline_access: false,
            user_data: false,
            vehicle_device_data: false,
            vehicle_cmds: false,
            vehicle_charging_cmds: false,
            energy_device_data: false,
            energy_cmds: false,
        }
    }

    /// The scopes that are in both sets.
    pub open spec fn common(self, other: ScopeSet) -> ScopeSet {
        ScopeSet {
            openid: self.openid && other.openid,
            offline_access: self.offline_access && other.offline_access,
            user_data: self.user_data && other.user_data,
            vehicle_device_data: self.vehicle_device_data && other.vehicle_device_data,
            vehicle_cmds: self.vehicle_cmds && other.vehicle_cmds,
            vehicle_charging_cmds: self.vehicle_charging_cmds && other.vehicle_charging_cmds,
            energy_device_data: self.energy_device_data && other.energy_device_data,
            energy_cmds: self.energy_cmds && other.energy_cmds,
        }
    }

    /// The empty set.
    pub fn new() -> (r: Self)
        ensures
            r == ScopeSet::none(),
    {
        ScopeSet {
            openid: false,
            offline_access: false,
            user_data: false,
            vehicle_device_data: false,
            vehicle_cmds: false,
            vehicle_charging_cmds: false,
            energy_device_data: false,
            energy_cmds: false,
        }
    }

    /// The set that holds every scope.
    pub open spec fn every() -> ScopeSet {
        ScopeSet {
            openid: true,
            offline_access: true,
            user_data: true,
            vehicle_device_data: true,
            vehicle_cmds: true,
            vehicle_charging_cmds: true,
            energy_device_data: true,
            energy_cmds: true,
        }
    }

    /// The set of all scopes.
    pub fn all() -> (r: Self)
        ensures
            r == ScopeSet::every(),
            forall|s: ScopeEnum| r.has(s),
    {
        ScopeSet {
            openid: true,
            offline_access: true,
            user_data: true,
            vehicle_device_data: true,
            vehicle_cmds: true,
            vehicle_charging_cmds: true,
            energy_device_data: true,
            energy_cmds: true,
        }
    }

    /// Adds a scope.
    pub fn insert(&mut self, s: ScopeEnum)
        ensures
            *final(self) == old(self).with(s),
    {
        match s {
            ScopeEnum::Openid => {
                self.openid = true;
            },
            ScopeEnum::OfflineAccess => {
                self.offline_access = true;
            },
            ScopeEnum::UserData => {
                self.user_data = true;
            },
            ScopeEnum::VehicleDeviceData => {
                self.vehicle_device_data = true;
            },
            ScopeEnum::VehicleCmds => {
                self.vehicle_cmds = true;
            },
            ScopeEnum::VehicleChargingCmds => {
                self.vehicle_charging_cmds = true;
            },
            ScopeEnum::EnergyDeviceData => {
                self.energy_device_data = true;
            },
            ScopeEnum::EnergyCmds => {
                self.energy_cmds = true;
            },
        }
    }

    /// Whether the scope is in the set.
    pub fn contains(&self, s: ScopeEnum) -> (r: bool)
        ensures
            r == self.has(s),
            r == self@.contains(s),
    {
        match s {
            ScopeEnum::Openid => self.openid,
            ScopeEnum::OfflineAccess => self.offline_access,
            ScopeEnum::UserData => self.user_data,
            ScopeEnum::VehicleDeviceData => self.vehicle_device_data,
            ScopeEnum::VehicleCmds => self.vehicle_cmds,
            ScopeEnum::VehicleChargingCmds => self.vehicle_charging_cmds,
            ScopeEnum::EnergyDeviceData => self.energy_device_data,
            ScopeEnum::EnergyCmds => self.energy_cmds,
        }
    }

    /// The scopes that are in both sets.
    pub fn intersection(&self, other: &ScopeSet) -> (r: ScopeSet)
        ensures
            r == self.common(*other),
            r@ == self@.intersect(other@),
    {
        let r = ScopeSet {
            openid: self.openid && other.openid,
            offline_access: self.offline_access && other.offline_access,
            user_data: self.user_data && other.user_data,
            vehicle_device_data: self.vehicle_device_data && other.vehicle_device_data,
            vehicle_cmds: self.vehicle_cmds && other.vehicle_cmds,
            vehicle_charging_cmds: self.vehicle_charging_cmds && other.vehicle_charging_cmds,
            energy_device_data: self.energy_device_data && other.energy_device_data,
            energy_cmds: self.energy_cmds && other.energy_cmds,
        };
        assert(r@ =~= self@.intersect(other@));
        r
    }

    /// The scopes of the set in the order in which they are written down.
    pub fn to_vec(&self) -> (r: Vec<ScopeEnum>)
        ensures
            r@ == members(*self, 8),
    {
        let mut r: Vec<ScopeEnum> = Vec::new();
        let mut i: usize = 0;
        while i < 8
            invariant
                i <= 8,
                r@ == members(*self, i as nat),
            decreases 8 - i,
        {
            let s: ScopeEnum = ScopeEnum::nth(i);
            if self.contains(s) {
                r.push(s);
            }
            i = i + 1;
        }
        r
    }
}

/// The members of `set` among the first `n` scopes, in order.
pub open spec fn members(set: ScopeSet, n: nat) -> Seq<ScopeEnum>
    decreases n,
{
    if n == 0 {
        Seq::empty()
    } else {
        let front = members(set, (n - 1) as nat);
        if set.has(scope_at(n - 1)) {
            front.push(scope_at(n - 1))
        } else {
            front
        }
    }
}

/// The set of the scopes in a list.
pub open spec fn set_of(list: Seq<ScopeEnum>) -> ScopeSet
    decreases list.len(),
{
    if list.len() == 0 {
        ScopeSet::none()
    } else {
        set_of(list.drop_last()).with(list.last())
    }
}

/// The set of the scopes that the names denote; `None` if one of them
/// denotes no scope.
pub open spec fn scopes_of_names(names: Seq<Seq<char>>) -> Option<ScopeSet>
    decreases names.len(),
{
    if names.len() == 0 {
        Some(ScopeSet::none())
    } else {
        match (scopes_of_names(names.drop_last()), scope_of_name(names.last())) {
            (Some(set), Some(s)) => Some(set.with(s)),
            _ => None,
        }
    }
}

/// The scopes that a request names, separated by single spaces; `None` if
/// one of the names denotes no scope.
pub open spec fn requested_scopes(scope: Seq<char>) -> Option<ScopeSet> {
    scopes_of_names(split(scope, ' '))
}

/// If the first `k` names do not all denote scopes, neither do all names.
pub proof fn lemma_scopes_of_names_prefix(names: Seq<Seq<char>>, k: int)
    requires
        0 <= k <= names.len(),
        scopes_of_names(names.subrange(0, k)) is None,
    ensures
        scopes_of_names(names) is None,
    decreases names.len() - k,
{
    if k == names.len() {
        assert(names.subrange(0, k) =~= names);
    } else {
        let next = names.subrange(0, k + 1);
        assert(next.drop_last() =~= names.subrange(0, k));
        lemma_scopes_of_names_prefix(names, k + 1);
    }
}

fn scopes_of(names: &Vec<String>) -> (r: Option<ScopeSet>)
    ensures
        r == scopes_of_names(views(names@)),
{
    let mut set: ScopeSet = ScopeSet::new();
    let mut i: usize = 0;
    assert(views(names@).subrange(0, 0) =~= Seq::<Seq<char>>::empty());
    while i < names.len()
        invariant
            i <= names.len(),
            scopes_of_names(views(names@).subrange(0, i as int)) == Some(set),
        decreases names.len() - i,
    {
        proof {
            let next = views(names@).subrange(0, i + 1);
            assert(next.drop_last() =~= views(names@).subrange(0, i as int));
            assert(next.last() == names@[i as int]@);
        }
        match ScopeEnum::from_str(names[i].as_str()) {
            Ok(s) => {
                set.insert(s);
            },
            Err(_) => {
                proof {
                    lemma_scopes_of_names_prefix(views(names@), i + 1);
                }
                return None;
            },
        }
        i = i + 1;
    }
    assert(views(names@).subrange(0, names.len() as int) =~= views(names@));
    Some(set)
}

/// Reads the scopes that a request names.
pub fn parse_scopes(scope: &str) -> (r: Option<ScopeSet>)
    ensures
        r == requested_scopes(scope@),
{
    let names: Vec<String> = split_on(scope, ' ');
    scopes_of(&names)
}

// ---------------------------------------------------------------------------
// Claims
// ---------------------------------------------------------------------------
/// The claims of an access token.
#[derive(Debug, Clone, Copy, PartialEq, Eq, Structural)]
pub struct AccessClaims {
    pub purpose: Purpose,
    /// When the token expires, in seconds since the epoch.
    pub exp: u64,
    pub scopes: ScopeSet,
}

/// The claims of a refresh token.
#[derive(Debug, Clone, Copy, PartialEq, Eq, Structural)]
pub struct RefreshClaims {
    pub purpose: Purpose,
    /// When the token expires, in seconds since the epoch.
    pub exp: u64,
    pub scopes: ScopeSet,
}

/// A name between double quotes.
pub open spec fn quote(name: Seq<char>) -> Seq<char> {
    seq!['"'] + name + seq!['"']
}

/// What stands between the double quotes of `piece`, if it stands between
/// double quotes.
pub open spec fn unquote(piece: Seq<char>) -> Option<Seq<char>> {
    if piece.len() >= 2 && piece[0] == '"' && piece.last() == '"' {
        Some(piece.subrange(1, piece.len() - 1))
    } else {
        None
    }
}

/// The quoted names of a list of scopes.
pub open spec fn quoted_names(list: Seq<ScopeEnum>) -> Seq<Seq<char>> {
    Seq::new(list.len(), |i: int| quote(scope_name(list[i])))
}

/// The claims written down: keys in alphabetical order, no blanks, the
/// scopes in their fixed order.
pub open spec fn claims_text(purpose: Purpose, exp: u64, scopes: ScopeSet) -> Seq<char> {
    "{\"exp\":"@ + int_text(exp as int) + ",\"purpose\":\""@ + purpose_name(purpose)
        + "\",\"scopes\":["@ + join(quoted_names(members(scopes, 8)), ',') + "]}"@
}

/// The set of the scopes whose quoted names are given; `None` if a piece is
/// not a quoted name of a scope.
pub open spec fn scopes_of_quoted(pieces: Seq<Seq<char>>) -> Option<ScopeSet>
    decreases pieces.len(),
{
    if pieces.len() == 0 {
        Some(ScopeSet::none())
    } else {
        match (scopes_of_quoted(pieces.drop_last()), unquote(pieces.last())) {
            (Some(set), Some(name)) => match scope_of_name(name) {
                Some(s) => Some(set.with(s)),
                None => None,
            },
            _ => None,
        }
    }
}

/// The scopes that the inside of a JSON array of names denotes.
pub open spec fn scope_list(inner: Seq<char>) -> Option<ScopeSet> {
    if inner.len() == 0 {
        Some(ScopeSet::none())
    } else {
        scopes_of_quoted(split(inner, ','))
    }
}

/// The claims that a text states, if it is the written form of claims and of
/// nothing else: the object with the keys `exp`, `purpose` and `scopes` in
/// this order and without blanks, where `exp` is a number below 2^64,
/// `purpose` is `Access` or `Refresh`, and `scopes` is an array of quoted
/// scope names.
pub open spec fn plain_claims(s: Seq<char>) -> Option<(Purpose, u64, ScopeSet)> {
    match strip(s, "{\"exp\":"@) {
        Some(r1) => match cut(r1, ',') {
            Some((number, r2)) => match strip(r2, "\"purpose\":\""@) {
                Some(r3) => match cut(r3, '"') {
                    Some((name, r4)) => match strip(r4, ",\"scopes\":["@) {
                        Some(r5) => match cut(r5, ']') {
                            Some((inner, r6)) => match (
                                parse_int(number, 0, u64::MAX as int),
                                purpose_of_name(name),
                                scope_list(inner),
                            ) {
                                (Some(exp), Some(purpose), Some(scopes)) => if r6 == "}"@ {
                                    Some((purpose, exp as u64, scopes))
                                } else {
                                    None
                                },
                                _ => None,
                            },
                            None => None,
                        },
                        None => None,
                    },
                    None => None,
                },
                None => None,
            },
            None => None,
        },
        None => None,
    }
}

fn purpose_text(p: Purpose) -> (r: &'static str)
    ensures
        r@ == purpose_name(p),
{
    match p {
        Purpose::Access => "Access",
        Purpose::Refresh => "Refresh",
    }
}

/// Writes claims down.
pub fn write_claims(purpose: Purpose, exp: u64, scopes: &ScopeSet) -> (out: String)
    ensures
        out@ == claims_text(purpose, exp, *scopes),
{
    let list: Vec<ScopeEnum> = scopes.to_vec();
    let mut names: Vec<String> = Vec::new();
    let mut i: usize = 0;
    while i < list.len()
        invariant
            i <= list.len(),
            views(names@) == quoted_names(list@.subrange(0, i as int)),
        decreases list.len() - i,
    {
        let mut name: String = "\"".to_owned();
        let plain: String = list[i].to_string();
        name.append(plain.as_str());
        name.append("\"");
        proof {
            reveal_strlit("\"");
            assert(name@ =~= quote(scope_name(list@[i as int])));
        }
        let ghost before = names@;
        names.push(name);
        i = i + 1;
        assert(views(names@) =~= views(before).push(name@));
        assert(views(names@) =~= quoted_names(list@.subrange(0, i as int)));
    }
    assert(list@.subrange(0, list.len() as int) =~= list@);
    proof {
        reveal_strlit(",");
    }
    let inner: String = join_with(&names, ",");
    let number: String = render_int(exp as i128);
    let mut out: String = "{\"exp\":".to_owned();
    out.append(number.as_str());
    out.append(",\"purpose\":\"");
    out.append(purpose_text(purpose));
    out.append("\",\"scopes\":[");
    out.append(inner.as_str());
    out.append("]}");
    out
}

fn strip_quotes(piece: &str) -> (r: Option<&str>)
    ensures
        match unquote(piece@) {
            Some(name) => r is Some && r->0@ == name,
            None => r is None,
        },
{
    let n: usize = piece.unicode_len();
    if n < 2 {
        return None;
    }
    if piece.get_char(0) == '"' && piece.get_char(n - 1) == '"' {
        Some(piece.substring_char(1, n - 1))
    } else {
        None
    }
}

proof fn lemma_scopes_of_quoted_prefix(pieces: Seq<Seq<char>>, k: int)
    requires
        0 <= k <= pieces.len(),
        scopes_of_quoted(pieces.subrange(0, k)) is None,
    ensures
        scopes_of_quoted(pieces) is None,
    decreases pieces.len() - k,
{
    if k == pieces.len() {
        assert(pieces.subrange(0, k) =~= pieces);
    } else {
        let next = pieces.subrange(0, k + 1);
        assert(next.drop_last() =~= pieces.subrange(0, k));
        lemma_scopes_of_quoted_prefix(pieces, k + 1);
    }
}

fn read_scope_list(inner: &str) -> (r: Option<ScopeSet>)
    ensures
        r == scope_list(inner@),
{
    let mut set: ScopeSet = ScopeSet::new();
    if inner.unicode_len() == 0 {
        return Some(set);
    }
    let pieces: Vec<String> = split_on(inner, ',');
    let mut i: usize = 0;
    assert(views(pieces@).subrange(0, 0) =~= Seq::<Seq<char>>::empty());
    while i < pieces.len()
        invariant
            i <= pieces.len(),
            inner@.len() > 0,
            views(pieces@) == split(inner@, ','),
            scopes_of_quoted(views(pieces@).subrange(0, i as int)) == Some(set),
        decreases pieces.len() - i,
    {
        proof {
            let next = views(pieces@).subrange(0, i + 1);
            assert(next.drop_last() =~= views(pieces@).subrange(0, i as int));
            assert(next.last() == pieces@[i as int]@);
        }
        let scope: Option<ScopeEnum> = match strip_quotes(pieces[i].as_str()) {
            Some(name) => match ScopeEnum::from_str(name) {
                Ok(s) => Some(s),
                Err(_) => None,
            },
            None => None,
        };
        match scope {
            Some(s) => {
                set.insert(s);
            },
            None => {
                proof {
                    lemma_scopes_of_quoted_prefix(views(pieces@), i + 1);
                }
                return None;
            },
        }
        i = i + 1;
    }
    assert(views(pieces@).subrange(0, pieces.len() as int) =~= views(pieces@));
    Some(set)
}

fn read_plain(text: &str) -> (r: Option<(Purpose, u64, ScopeSet)>)
    ensures
        r == plain_claims(text@),
{
    let r1: &str = match strip_prefix(text, "{\"exp\":") {
        Some(rest) => rest,
        None => {
            return None;
        },
    };
    let (number, r2) = match split_once(r1, ',') {
        Some(pair) => pair,
        None => {
            return None;
        },
    };
    let r3: &str = match strip_prefix(r2, "\"purpose\":\"") {
        Some(rest) => rest,
        None => {
            return None;
        },
    };
    let (name, r4) = match split_once(r3, '"') {
        Some(pair) => pair,
        None => {
            return None;
        },
    };
    let r5: &str = match strip_prefix(r4, ",\"scopes\":[") {
        Some(rest) => rest,
        None => {
            return None;
        },
    };
    let (inner, r6) = match split_once(r5, ']') {
        Some(pair) => pair,
        None => {
            return None;
        },
    };
    let exp: u64 = match parse_integer(number, 0, 0xffff_ffff_ffff_ffff) {
        Some(v) => v as u64,
        None => {
            return None;
        },
    };
    let purpose: Purpose = if str_eq(name, "Access") {
        Purpose::Access
    } else if str_eq(name, "Refresh") {
        Purpose::Refresh
    } else {
        return None;
    };
    let scopes: ScopeSet = match read_scope_list(inner) {
        Some(set) => set,
        None => {
            return None;
        },
    };
    if str_eq(r6, "}") {
        Some((purpose, exp, scopes))
    } else {
        None
    }
}

/// Where the member of a JSON object that stands at `i` ends: the first
/// position from `i` on that holds a `,` or a closing bracket outside of any
/// string and of any array or object within the member; the length of the
/// text if there is none.
///
/// `depth` counts the arrays and objects that are open at `i`, and `quoted`
/// says whether a string is. Within a string a backslash takes the next
/// character with it.
pub open spec fn member_end(s: Seq<char>, i: int, depth: nat, quoted: bool) -> int
    decreases s.len() - i,
{
    if i < 0 || i >= s.len() {
        s.len() as int
    } else if quoted {
        if s[i] == '\\' {
            if i + 1 < s.len() {
                member_end(s, i + 2, depth, true)
            } else {
                s.len() as int
            }
        } else {
            member_end(s, i + 1, depth, s[i] != '"')
        }
    } else if s[i] == '"' {
        member_end(s, i + 1, depth, true)
    } else if s[i] == '[' || s[i] == '{' {
        member_end(s, i + 1, depth + 1, false)
    } else if s[i] == ']' || s[i] == '}' {
        if depth == 0 {
            i
        } else {
            member_end(s, i + 1, (depth - 1) as nat, false)
        }
    } else if s[i] == ',' && depth == 0 {
        i
    } else {
        member_end(s, i + 1, depth, false)
    }
}

/// Whether a member of a JSON object stands under one of the keys of claims.
pub open spec fn is_claim(member: Seq<char>) -> bool {
    ||| strip(member, "\"exp\":"@) is Some
    ||| strip(member, "\"purpose\":"@) is Some
    ||| strip(member, "\"scopes\":"@) is Some
}

/// The members from position `i` of a JSON object on that stand under a key
/// of claims, each with a `,` before it; `None` if the object does not end
/// with the text.
pub open spec fn claims_from(s: Seq<char>, i: int) -> Option<Seq<char>>
    decreases s.len() - i,
{
    let end = member_end(s, i, 0, false);
    if i < 0 || end < i || end >= s.len() {
        None
    } else {
        let member = s.subrange(i, end);
        let kept = if is_claim(member) {
            seq![','] + member
        } else {
            Seq::empty()
        };
        if s[end] == ',' {
            match claims_from(s, end + 1) {
                Some(rest) => Some(kept + rest),
                None => None,
            }
        } else if s[end] == '}' && end + 1 == s.len() {
            Some(kept)
        } else {
            None
        }
    }
}

/// A JSON object without the members that stand under other keys than those
/// of claims; `None` if the text is no object or none is left.
pub open spec fn claims_part(s: Seq<char>) -> Option<Seq<char>> {
    if s.len() > 0 && s[0] == '{' {
        match claims_from(s, 1) {
            Some(kept) => if kept.len() > 0 {
                Some(seq!['{'] + kept.drop_first() + seq!['}'])
            } else {
                None
            },
            None => None,
        }
    } else {
        None
    }
}

/// The claims that a text states: those of the members of the object that
/// stand under the keys of claims. What a token says beyond its claims is
/// passed over.
pub open spec fn claims_of_text(s: Seq<char>) -> Option<(Purpose, u64, ScopeSet)> {
    match claims_part(s) {
        Some(part) => plain_claims(part),
        None => None,
    }
}

fn find_member_end(chars: &Vec<char>, start: usize) -> (r: usize)
    requires
        start <= chars.len(),
    ensures
        r == member_end(chars@, start as int, 0, false),
        start <= r <= chars.len(),
{
    let n: usize = chars.len();
    let mut j: usize = start;
    let mut depth: usize = 0;
    let mut quoted: bool = false;
    while j < n
        invariant
            n == chars.len(),
            start <= j <= n,
            depth <= j - start,
            member_end(chars@, start as int, 0, false) == member_end(
                chars@,
                j as int,
                depth as nat,
                quoted,
            ),
        decreases n - j,
    {
        let c: char = chars[j];
        if quoted {
            if c == '\\' {
                if j + 1 < n {
                    j = j + 2;
                } else {
                    j = n;
                }
            } else {
                quoted = c != '"';
                j = j + 1;
            }
        } else if c == '"' {
            quoted = true;
            j = j + 1;
        } else if c == '[' || c == '{' {
            depth = depth + 1;
            j = j + 1;
        } else if c == ']' || c == '}' {
            if depth == 0 {
                return j;
            }
            depth = depth - 1;
            j = j + 1;
        } else if c == ',' && depth == 0 {
            return j;
        } else {
            j = j + 1;
        }
    }
    n
}

fn stands_under_claim(member: &str) -> (r: bool)
    ensures
        r == is_claim(member@),
{
    match strip_prefix(member, "\"exp\":") {
        Some(_) => true,
        None => match strip_prefix(member, "\"purpose\":") {
            Some(_) => true,
            None => match strip_prefix(member, "\"scopes\":") {
                Some(_) => true,
                None => false,
            },
        },
    }
}

fn read_claims_part(text: &str) -> (r: Option<String>)
    ensures
        match claims_part(text@) {
            Some(part) => r matches Some(out) && out@ == part,
            None => r is None,
        },
{
    let chars: Vec<char> = chars_of(text);
    let n: usize = chars.len();
    if n == 0 || chars[0] != '{' {
        return None;
    }
    let mut kept: String = String::new();
    let mut i: usize = 1;
    let mut done: bool = false;
    assert(kept@ + claims_from(text@, 1)->0 =~= claims_from(text@, 1)->0);
    while !done
        invariant
            chars@ == text@,
            n == chars.len(),
            1 <= i <= n,
            !done ==> claims_from(text@, 1) == (match claims_from(text@, i as int) {
                Some(rest) => Some(kept@ + rest),
                None => None,
            }),
            done ==> claims_from(text@, 1) == Some(kept@),
        decreases
                (if done {
                    0
                } else {
                    n - i + 1
                }),
    {
        let end: usize = find_member_end(&chars, i);
        if end >= n {
            return None;
        }
        let member: &str = text.substring_char(i, end);
        let ghost before = kept@;
        let ghost here = if is_claim(member@) {
            seq![','] + member@
        } else {
            Seq::<char>::empty()
        };
        if stands_under_claim(member) {
            kept.append(",");
            kept.append(member);
            proof {
                reveal_strlit(",");
                assert(","@ =~= seq![',']);
            }
        }
        assert(kept@ =~= before + here);
        let c: char = chars[end];
        if c == ',' {
            proof {
                if claims_from(text@, end + 1) is Some {
                    let rest = claims_from(text@, end + 1)->0;
                    assert(before + (here + rest) =~= kept@ + rest);
                }
            }
            i = end + 1;
        } else if c == '}' && end + 1 == n {
            done = true;
        } else {
            return None;
        }
    }
    let m: usize = kept.as_str().unicode_len();
    if m == 0 {
        return None;
    }
    let mut out: String = "{".to_owned();
    out.append(kept.as_str().substring_char(1, m));
    out.append("}");
    proof {
        reveal_strlit("{");
        reveal_strlit("}");
        assert("{"@ =~= seq!['{']);
        assert("}"@ =~= seq!['}']);
        assert(kept@.subrange(1, m as int) =~= kept@.drop_first());
    }
    Some(out)
}

/// Reads claims that were written down, among whatever else a token says.
pub fn read_claims(text: &str) -> (r: Option<(Purpose, u64, ScopeSet)>)
    ensures
        r == claims_of_text(text@),
{
    match read_claims_part(text) {
        Some(part) => read_plain(part.as_str()),
        None => None,
    }
}

// ---------------------------------------------------------------------------
// Tokens
// ---------------------------------------------------------------------------
/// What the server needs to sign and to check tokens.
#[derive(Debug, PartialEq, Eq)]
pub struct Config {
    /// The secret that tokens are signed with.
    pub secret: String,
}

/// A pair of tokens: one to call the interface with, one to get the next
/// pair with.
#[derive(Debug, PartialEq, Eq)]
pub struct Token {
    pub access_token: String,
    pub refresh_token: String,
    /// When both expire, in seconds since the epoch.
    pub expires_at: Timestamp,
}

/// Seconds that a token is good for.
pub const TOKEN_LIFETIME: i64 = 600;

/// How many seconds past its expiry a token still passes: none.
pub const LEEWAY: u64 = 0;

/// Why no token could be made.
#[derive(Debug)]
pub enum TokenGenerationError {
    /// The claims could not be signed.
    TokenGenerationError(jsonwebtoken::errors::Error),
    /// The time of expiry cannot be written down.
    TimestampError,
}

/// Why a token was turned down.
#[derive(Debug)]
pub enum TokenValidationError {
    /// The signature is wrong, the token has expired, or it is no token.
    TokenValidationError(jsonwebtoken::errors::Error),
    /// The token does not state the claims that this library puts in its
    /// tokens.
    MalformedClaims,
    /// The token is for another purpose.
    WrongTokenType,
}

/// When a token that is made at `now` expires, in seconds since the epoch;
/// `None` if that lies before the epoch or beyond the reach of the clock.
pub open spec fn expiry(now: Timestamp) -> Option<u64> {
    if 0 <= now + 600 <= i64::MAX {
        Some((now + 600) as u64)
    } else {
        None
    }
}

/// Whether both tokens of the pair for `scopes` that expires at `exp` can be
/// signed under `secret`.
pub open spec fn signable(secret: Seq<char>, scopes: ScopeSet, exp: u64) -> bool {
    &&& crate::jwt::signed_jwt(secret, claims_text(Purpose::Access, exp, scopes)) is Some
    &&& crate::jwt::signed_jwt(secret, claims_text(Purpose::Refresh, exp, scopes)) is Some
}

/// Whether `token` is the pair for `scopes` that expires at `exp`: both
/// tokens are the signed claims of their purpose.
pub open spec fn is_token_pair(
    token: Token,
    secret: Seq<char>,
    scopes: ScopeSet,
    exp: u64,
) -> bool {
    &&& token.expires_at == exp
    &&& crate::jwt::signed_jwt(secret, claims_text(Purpose::Access, exp, scopes)) == Some(
        token.access_token@,
    )
    &&& crate::jwt::signed_jwt(secret, claims_text(Purpose::Refresh, exp, scopes)) == Some(
        token.refresh_token@,
    )
}

/// What making the pair for `scopes` at the time `now` comes to: the pair
/// that expires ten minutes later, where that time can be written down and
/// both tokens can be signed, and else the error that says which of the two
/// failed.
pub open spec fn is_minted(
    r: Result<Token, TokenGenerationError>,
    secret: Seq<char>,
    scopes: ScopeSet,
    now: Timestamp,
) -> bool {
    match expiry(now) {
        None => r matches Err(TokenGenerationError::TimestampError),
        Some(exp) => if signable(secret, scopes, exp) {
            r matches Ok(token) && is_token_pair(token, secret, scopes, exp)
        } else {
            r matches Err(TokenGenerationError::TokenGenerationError(_))
        },
    }
}

impl Token {
    /// Makes a pair of tokens for `scopes` that expires ten minutes from
    /// now.
    ///
    /// The time is that of the machine: what comes back is what `Token::at`
    /// gives for some time.
    pub fn new(config: &Config, scopes: &ScopeSet) -> (r: Result<Token, TokenGenerationError>)
        ensures
            exists|now: Timestamp| is_minted(r, config.secret@, *scopes, now),
    {
        let now: i64 = crate::jwt::unix_now();
        Token::at(config, scopes, now)
    }

    /// Makes a pair of tokens for `scopes` at the time `now`, which expires
    /// ten minutes later.
    ///
    /// Fails with `TimestampError` exactly when the time of expiry cannot be
    /// written down, and otherwise exactly when one of the two tokens cannot
    /// be signed.
    pub fn at(config: &Config, scopes: &ScopeSet, now: Timestamp) -> (r: Result<
        Token,
        TokenGenerationError,
    >)
        ensures
            is_minted(r, config.secret@, *scopes, now),
    {
        if now > 0x7fff_ffff_ffff_ffff - TOKEN_LIFETIME || now < -TOKEN_LIFETIME {
            return Err(TokenGenerationError::TimestampError);
        }
        let expires_at: i64 = now + TOKEN_LIFETIME;
        let timestamp: u64 = expires_at as u64;
        let access_claims: String = write_claims(Purpose::Access, timestamp, scopes);
        let access_token: String = match crate::jwt::sign(
            config.secret.as_str(),
            access_claims.as_str(),
        ) {
            Ok(token) => token,
            Err(e) => {
                return Err(TokenGenerationError::TokenGenerationError(e));
            },
        };
        let refresh_claims: String = write_claims(Purpose::Refresh, timestamp, scopes);
        let refresh_token: String = match crate::jwt::sign(
            config.secret.as_str(),
            refresh_claims.as_str(),
        ) {
            Ok(token) => token,
            Err(e) => {
                return Err(TokenGenerationError::TokenGenerationError(e));
            },
        };
        Ok(Token { access_token, refresh_token, expires_at })
    }
}

/// Whether a text states claims that an access token may carry.
pub open spec fn states_access(text: Seq<char>) -> bool {
    claims_of_text(text) matches Some(claims) && claims.0 == Purpose::Access
}

/// Whether a text states claims that a refresh token may carry.
pub open spec fn states_refresh(text: Seq<char>) -> bool {
    claims_of_text(text) matches Some(claims) && claims.0 == Purpose::Refresh
}

/// Takes the claims of a token that has passed the check of its signature
/// and expiry for those of an access token.
///
/// Claims that cannot be read are malformed; claims for another purpose are
/// of the wrong type.
pub fn access_claims(text: &str) -> (r: Result<AccessClaims, TokenValidationError>)
    ensures
        match claims_of_text(text@) {
            None => r matches Err(TokenValidationError::MalformedClaims),
            Some((purpose, exp, scopes)) => if purpose == Purpose::Access {
                r matches Ok(claims) && claims == (AccessClaims { purpose, exp, scopes })
            } else {
                r matches Err(TokenValidationError::WrongTokenType)
            },
        },
        r is Ok <==> states_access(text@),
{
    match read_claims(text) {
        None => Err(TokenValidationError::MalformedClaims),
        Some((purpose, exp, scopes)) => match purpose {
            Purpose::Access => Ok(AccessClaims { purpose, exp, scopes }),
            Purpose::Refresh => Err(TokenValidationError::WrongTokenType),
        },
    }
}

/// Takes the claims of a token that has passed the check of its signature
/// and expiry for those of a refresh token.
///
/// Claims that cannot be read are malformed; claims for another purpose are
/// of the wrong type.
pub fn refresh_claims(text: &str) -> (r: Result<RefreshClaims, TokenValidationError>)
    ensures
        match claims_of_text(text@) {
            None => r matches Err(TokenValidationError::MalformedClaims),
            Some((purpose, exp, scopes)) => if purpose == Purpose::Refresh {
                r matches Ok(claims) && claims == (RefreshClaims { purpose, exp, scopes })
            } else {
                r matches Err(TokenValidationError::WrongTokenType)
            },
        },
        r is Ok <==> states_refresh(text@),
{
    match read_claims(text) {
        None => Err(TokenValidationError::MalformedClaims),
        Some((purpose, exp, scopes)) => match purpose {
            Purpose::Refresh => Ok(RefreshClaims { purpose, exp, scopes }),
            Purpose::Access => Err(TokenValidationError::WrongTokenType),
        },
    }
}

/// The claims of an access token that a token carries under `secret`, if it
/// carries such claims.
pub open spec fn access_held(secret: Seq<char>, token: Seq<char>) -> Option<AccessClaims> {
    match crate::jwt::checked_jwt(secret, token) {
        Some(text) => match claims_of_text(text) {
            Some((purpose, exp, scopes)) => if purpose == Purpose::Access {
                Some(AccessClaims { purpose, exp, scopes })
            } else {
                None
            },
            None => None,
        },
        None => None,
    }
}

/// The claims of a refresh token that a token carries under `secret`, if it
/// carries such claims.
pub open spec fn refresh_held(secret: Seq<char>, token: Seq<char>) -> Option<RefreshClaims> {
    match crate::jwt::checked_jwt(secret, token) {
        Some(text) => match claims_of_text(text) {
            Some((purpose, exp, scopes)) => if purpose == Purpose::Refresh {
                Some(RefreshClaims { purpose, exp, scopes })
            } else {
                None
            },
            None => None,
        },
        None => None,
    }
}

/// Whether a token that was turned down with `e` was rightly turned down,
/// given what it carries: claims are malformed only if there are claims that
/// cannot be read, and of the wrong type only if they are for the other
/// purpose, `other`. That the signature or the expiry did not pass is for
/// the signing library and the clock to say.
pub open spec fn is_turned_down(
    e: TokenValidationError,
    carried: Option<Seq<char>>,
    other: Purpose,
) -> bool {
    match e {
        TokenValidationError::TokenValidationError(_) => true,
        TokenValidationError::MalformedClaims => carried matches Some(text) && claims_of_text(
            text,
        ) is None,
        TokenValidationError::WrongTokenType => carried matches Some(text) && claims_of_text(
            text,
        ) matches Some(claims) && claims.0 == other,
    }
}

/// Checks a token that is presented for access: the signature, the expiry,
/// and that the token is for access.
///
/// Whether the signature and the expiry pass is for the signing library and
/// the clock to say. Claims that come back are the claims of an access token
/// that the token carries, so a token that carries none is turned down
/// whatever the time.
pub fn validate_access_token(token: &str, config: &Config) -> (r: Result<
    AccessClaims,
    TokenValidationError,
>)
    ensures
        match r {
            Ok(claims) => access_held(config.secret@, token@) == Some(claims),
            Err(e) => is_turned_down(
                e,
                crate::jwt::checked_jwt(config.secret@, token@),
                Purpose::Refresh,
            ),
        },
        r matches Ok(claims) ==> claims.purpose == Purpose::Access,
{
    match crate::jwt::verify(config.secret.as_str(), token, LEEWAY) {
        Ok(text) => access_claims(text.as_str()),
        Err(e) => Err(TokenValidationError::TokenValidationError(e)),
    }
}

/// Checks a token that is presented for a refresh: the signature, the
/// expiry, and that the token is for refreshing.
///
/// Whether the signature and the expiry pass is for the signing library and
/// the clock to say. Claims that come back are the claims of a refresh token
/// that the token carries, so a token that carries none is turned down
/// whatever the time.
pub fn validate_refresh_token(token: &str, config: &Config) -> (r: Result<
    RefreshClaims,
    TokenValidationError,
>)
    ensures
        match r {
            Ok(claims) => refresh_held(config.secret@, token@) == Some(claims),
            Err(e) => is_turned_down(
                e,
                crate::jwt::checked_jwt(config.secret@, token@),
                Purpose::Access,
            ),
        },
        r matches Ok(claims) ==> claims.purpose == Purpose::Refresh,
{
    match crate::jwt::verify(config.secret.as_str(), token, LEEWAY) {
        Ok(text) => refresh_claims(text.as_str()),
        Err(e) => Err(TokenValidationError::TokenValidationError(e)),
    }
}

// ---------------------------------------------------------------------------
// What holds of written claims
// ---------------------------------------------------------------------------
/// No character of a name is a comma, a double quote or a closing bracket.
pub open spec fn plain(name: Seq<char>) -> bool {
    free_of(name, ',') && free_of(name, '"') && free_of(name, ']')
}

/// The name of a scope is plain, and the scope is found again by it.
pub proof fn lemma_scope_name(s: ScopeEnum)
    ensures
        plain(scope_name(s)),
        scope_of_name(scope_name(s)) == Some(s),
{
    reveal_strlit("openid");
    reveal_strlit("offline_access");
    reveal_strlit("user_data");
    reveal_strlit("vehicle_device_data");
    reveal_strlit("vehicle_cmds");
    reveal_strlit("vehicle_charging_cmds");
    reveal_strlit("energy_device_data");
    reveal_strlit("energy_cmds");
    assert("openid"@.len() == 6);
    assert("offline_access"@.len() == 14);
    assert("user_data"@.len() == 9);
    assert("vehicle_device_data"@.len() == 19);
    assert("vehicle_cmds"@.len() == 12);
    assert("vehicle_charging_cmds"@.len() == 21);
    assert("energy_device_data"@.len() == 18);
    assert("energy_cmds"@.len() == 11);
}

/// The name of a purpose holds no double quote, and the purpose is found
/// again by it.
pub proof fn lemma_purpose_name(p: Purpose)
    ensures
        free_of(purpose_name(p), '"'),
        purpose_of_name(purpose_name(p)) == Some(p),
{
    reveal_strlit("Access");
    reveal_strlit("Refresh");
    assert("Access"@.len() == 6);
    assert("Refresh"@.len() == 7);
}

/// The members of a set make up the set.
pub proof fn lemma_set_of_members(set: ScopeSet)
    ensures
        set_of(members(set, 8)) == set,
        members(set, 8).len() == 0 ==> set == ScopeSet::none(),
{
    lemma_set_of_members_upto(set, 8);
    if members(set, 8).len() == 0 {
        lemma_members_len(set, 8);
        assert(!set.has(scope_at(0)));
        assert(!set.has(scope_at(1)));
        assert(!set.has(scope_at(2)));
        assert(!set.has(scope_at(3)));
        assert(!set.has(scope_at(4)));
        assert(!set.has(scope_at(5)));
        assert(!set.has(scope_at(6)));
        assert(!set.has(scope_at(7)));
    }
}

proof fn lemma_members_len(set: ScopeSet, n: nat)
    requires
        n <= 8,
        members(set, n).len() == 0,
    ensures
        forall|i: int| 0 <= i < n ==> !set.has(scope_at(i)),
    decreases n,
{
    if n > 0 {
        if set.has(scope_at(n - 1)) {
            assert(members(set, n).len() == members(set, (n - 1) as nat).len() + 1);
        }
        lemma_members_len(set, (n - 1) as nat);
    }
}

/// The set of `set`'s members among the first `n` scopes.
pub open spec fn upto(set: ScopeSet, n: nat) -> ScopeSet {
    ScopeSet {
        openid: set.openid && n > 0,
        offline_access: set.offline_access && n > 1,
        user_data: set.user_data && n > 2,
        vehicle_device_data: set.vehicle_device_data && n > 3,
        vehicle_cmds: set.vehicle_cmds && n > 4,
        vehicle_charging_cmds: set.vehicle_charging_cmds && n > 5,
        energy_device_data: set.energy_device_data && n > 6,
        energy_cmds: set.energy_cmds && n > 7,
    }
}

proof fn lemma_set_of_members_upto(set: ScopeSet, n: nat)
    requires
        n <= 8,
    ensures
        set_of(members(set, n)) == upto(set, n),
    decreases n,
{
    if n > 0 {
        lemma_set_of_members_upto(set, (n - 1) as nat);
        let front = members(set, (n - 1) as nat);
        if set.has(scope_at(n - 1)) {
            assert(members(set, n).drop_last() =~= front);
        }
    }
}

/// The quoted names of a list of scopes are read as the set of the list.
pub proof fn lemma_scopes_of_quoted_names(list: Seq<ScopeEnum>)
    ensures
        scopes_of_quoted(quoted_names(list)) == Some(set_of(list)),
        forall|k: int|
            0 <= k < list.len() ==> free_of(#[trigger] quoted_names(list)[k], ',') && free_of(
                quoted_names(list)[k],
                ']',
            ) && quoted_names(list)[k].len() > 0,
    decreases list.len(),
{
    if list.len() > 0 {
        let front = list.drop_last();
        lemma_scopes_of_quoted_names(front);
        let pieces = quoted_names(list);
        assert(pieces.drop_last() =~= quoted_names(front));
        let name = scope_name(list.last());
        lemma_scope_name(list.last());
        let piece = pieces.last();
        assert(piece == quote(name));
        assert(piece.subrange(1, piece.len() - 1) =~= name);
        assert forall|k: int| 0 <= k < list.len() implies free_of(
            #[trigger] quoted_names(list)[k],
            ',',
        ) && free_of(quoted_names(list)[k], ']') && quoted_names(list)[k].len() > 0 by {
            if k < front.len() {
                assert(quoted_names(list)[k] == quoted_names(front)[k]);
            } else {
                let q = quoted_names(list)[k];
                assert forall|i: int| 0 <= i < q.len() implies q[i] != ',' && q[i] != ']' by {
                    if 0 < i < q.len() - 1 {
                        assert(q[i] == name[i - 1]);
                    }
                }
            }
        }
    }
}

/// A joined list of pieces that hold no `c` holds no `c`, if the separator
/// is not `c`.
pub proof fn lemma_join_free(parts: Seq<Seq<char>>, sep: char, c: char)
    requires
        sep != c,
        forall|k: int| 0 <= k < parts.len() ==> free_of(#[trigger] parts[k], c),
    ensures
        free_of(join(parts, sep), c),
    decreases parts.len(),
{
    if parts.len() == 1 {
        assert(free_of(parts[0], c));
    } else if parts.len() > 1 {
        let rest = parts.drop_first();
        assert forall|k: int| 0 <= k < rest.len() implies free_of(#[trigger] rest[k], c) by {
            assert(rest[k] == parts[k + 1]);
        }
        lemma_join_free(rest, sep, c);
        assert(free_of(parts[0], c));
        let s = join(parts, sep);
        let tail = join(rest, sep);
        assert forall|i: int| 0 <= i < s.len() implies s[i] != c by {
            if i < parts[0].len() {
                assert(s[i] == parts[0][i]);
            } else if i == parts[0].len() {
            } else {
                assert(s[i] == tail[i - parts[0].len() - 1]);
            }
        }
    }
}

/// The inside of a written list of scopes is read as the scopes.
pub proof fn lemma_scope_list(scopes: ScopeSet)
    ensures
        scope_list(join(quoted_names(members(scopes, 8)), ',')) == Some(scopes),
        free_of(join(quoted_names(members(scopes, 8)), ','), ']'),
{
    let list = members(scopes, 8);
    let pieces = quoted_names(list);
    let inner = join(pieces, ',');
    lemma_set_of_members(scopes);
    lemma_scopes_of_quoted_names(list);
    lemma_join_free(pieces, ',', ']');
    if list.len() > 0 {
        lemma_split_join(pieces, ',');
        assert(pieces[0].len() > 0);
        if pieces.len() == 1 {
            assert(inner == pieces[0]);
        } else {
            assert(inner.len() >= pieces[0].len());
        }
    }
}

/// Claims that were written down are read as they were.
pub proof fn lemma_claims_roundtrip(purpose: Purpose, exp: u64, scopes: ScopeSet)
    ensures
        claims_of_text(claims_text(purpose, exp, scopes)) == Some((purpose, exp, scopes)),
{
    reveal_strlit("{\"exp\":");
    reveal_strlit(",\"purpose\":\"");
    reveal_strlit("\"purpose\":\"");
    reveal_strlit("\",\"scopes\":[");
    reveal_strlit(",\"scopes\":[");
    reveal_strlit("]}");
    reveal_strlit("}");
    let number = int_text(exp as int);
    let name = purpose_name(purpose);
    let inner = join(quoted_names(members(scopes, 8)), ',');
    let text = claims_text(purpose, exp, scopes);
    let r6 = "}"@;
    let r5 = inner + seq![']'] + r6;
    let r4 = ",\"scopes\":["@ + r5;
    let r3 = name + seq!['"'] + r4;
    let r2 = "\"purpose\":\""@ + r3;
    let r1 = number + seq![','] + r2;
    assert(",\"purpose\":\""@ =~= seq![','] + "\"purpose\":\""@);
    assert("\",\"scopes\":["@ =~= seq!['"'] + ",\"scopes\":["@);
    assert("]}"@ =~= seq![']'] + "}"@);
    assert(text =~= "{\"exp\":"@ + r1);
    lemma_strip_concat("{\"exp\":"@, r1);
    lemma_int_text_chars(exp as int);
    assert(free_of(number, ','));
    lemma_cut_concat(number, ',', r2);
    lemma_strip_concat("\"purpose\":\""@, r3);
    lemma_purpose_name(purpose);
    lemma_cut_concat(name, '"', r4);
    lemma_strip_concat(",\"scopes\":["@, r5);
    lemma_scope_list(scopes);
    lemma_cut_concat(inner, ']', r6);
    lemma_parse_int_text(exp as int, 0, u64::MAX as int);
    assert(plain_claims(text) == Some((purpose, exp, scopes)));
    crate::claims::lemma_claims_part_written(purpose, exp, scopes);
}

/// No claims pass both as those of an access token and as those of a
/// refresh token, and the claims that are written for one purpose do not
/// pass for the other.
pub proof fn lemma_purposes_apart(text: Seq<char>, exp: u64, scopes: ScopeSet)
    ensures
        !(states_access(text) && states_refresh(text)),
        states_access(claims_text(Purpose::Access, exp, scopes)),
        !states_refresh(claims_text(Purpose::Access, exp, scopes)),
        states_refresh(claims_text(Purpose::Refresh, exp, scopes)),
        !states_access(claims_text(Purpose::Refresh, exp, scopes)),
{
    lemma_claims_roundtrip(Purpose::Access, exp, scopes);
    lemma_claims_roundtrip(Purpose::Refresh, exp, scopes);
}

} // verus!
