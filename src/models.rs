use vstd::prelude::*;

verus! {

/// The flow that a client asks for at the authentication entry point.
#[derive(PartialEq, Eq, Structural, Clone, Copy, Debug)]
pub enum Action {
    Login,
    Signup,
    Forgot,
}

/// The key namespaces of the volatile store and the cookie names.
#[derive(PartialEq, Eq, Structural, Clone, Copy, Debug)]
pub enum RedisAction {
    Auth,
    Forgot,
    LockedTime,
    Session,
    LockedTemporary,
    Update,
    SessionStore,
    LockedVerify,
    LockedAuth,
    LockedForgot,
}

impl RedisAction {
    /// The text of each namespace: the single table from tag to prefix.
    pub open spec fn spec_prefix(self) -> Seq<char> {
        match self {
            RedisAction::Auth => "auth_id"@,
            RedisAction::Forgot => "forgot_id"@,
            RedisAction::LockedTime => "locked_timestamp"@,
            RedisAction::Session => "session_id"@,
            RedisAction::LockedTemporary => "temporary_lock"@,
            RedisAction::Update => "update"@,
            RedisAction::SessionStore => "sessions"@,
            RedisAction::LockedVerify => "verify_lock"@,
            RedisAction::LockedAuth => "auth_lock"@,
            RedisAction::LockedForgot => "forgot_lock"@,
        }
    }

    pub fn as_str(&self) -> (r: &'static str)
        ensures
            r@ == self.spec_prefix(),
    {
        match self {
            RedisAction::Auth => "auth_id",
            RedisAction::Forgot => "forgot_id",
            RedisAction::LockedTime => "locked_timestamp",
            RedisAction::Session => "session_id",
            RedisAction::LockedTemporary => "temporary_lock",
            RedisAction::Update => "update",
            RedisAction::SessionStore => "sessions",
            RedisAction::LockedVerify => "verify_lock",
            RedisAction::LockedAuth => "auth_lock",
            RedisAction::LockedForgot => "forgot_lock",
        }
    }
}

/// `prefix:id`, the shape of every key of the volatile store.
pub open spec fn spec_key(prefix: Seq<char>, id: Seq<char>) -> Seq<char> {
    prefix + ":"@ + id
}

/// Two keys of one namespace are equal only for equal ids.
pub proof fn lemma_key_injective(prefix: Seq<char>, a: Seq<char>, b: Seq<char>)
    ensures
        spec_key(prefix, a) == spec_key(prefix, b) ==> a == b,
{
    reveal_strlit(":");
    let n = prefix.len() + 1;
    assert(spec_key(prefix, a).subrange(n as int, spec_key(prefix, a).len() as int) =~= a);
    assert(spec_key(prefix, b).subrange(n as int, spec_key(prefix, b).len() as int) =~= b);
}

/// Keys whose namespaces differ at a position of both are different.
pub proof fn lemma_key_distinct(prefix_a: Seq<char>, prefix_b: Seq<char>, a: Seq<char>, b: Seq<char>, i: int)
    requires
        0 <= i < prefix_a.len(),
        i < prefix_b.len(),
        prefix_a[i] != prefix_b[i],
    ensures
        spec_key(prefix_a, a) != spec_key(prefix_b, b),
{
    assert(spec_key(prefix_a, a)[i] == prefix_a[i]);
    assert(spec_key(prefix_b, b)[i] == prefix_b[i]);
}

/// Builds the store key `prefix:id`.
pub fn join_key(prefix: &str, id: &str) -> (r: String)
    ensures
        r@ == spec_key(prefix@, id@),
{
    let mut r = prefix.to_owned();
    r.append(":");
    r.append(id);
    r
}

/// The store key of `id` in the namespace of `redis_action`.
pub fn get_key(redis_action: RedisAction, hashed_ip: &str) -> (r: String)
    ensures
        r@ == spec_key(redis_action.spec_prefix(), hashed_ip@),
{
    join_key(redis_action.as_str(), hashed_ip)
}

/// Copies a string; the copy is equal to the source.
pub fn copy_string(s: &String) -> (r: String)
    ensures
        r == *s,
{
    s.clone()
}

/// Copies an optional string; the copy is equal to the source.
pub fn copy_opt_string(s: &Option<String>) -> (r: Option<String>)
    ensures
        r == *s,
{
    match s {
        Some(v) => Some(v.clone()),
        None => None,
    }
}

/// A sign-up or login request.
pub struct Account {
    pub email: String,
    pub password: String,
    pub action: Action,
}

/// A pending action: an in-flight, not yet verified step of a flow.
pub struct RedisAccount {
    pub email: String,
    pub action: Action,
    pub code: String,
    pub issued_timestamp: Option<i64>,
    pub password_hash: Option<String>,
}

impl RedisAccount {
    /// A copy equal to `self`.
    pub fn duplicate(&self) -> (r: RedisAccount)
        ensures
            r == *self,
    {
        RedisAccount {
            email: copy_string(&self.email),
            action: self.action,
            code: copy_string(&self.code),
            issued_timestamp: self.issued_timestamp,
            password_hash: copy_opt_string(&self.password_hash),
        }
    }
}

/// A request that carries one value: an email, a code or a new password.
pub struct Token {
    pub token: String,
}

/// The claims of an API token; none are read.
pub struct DummyClaims {}

/// The category of a listed item.
#[derive(PartialEq, Eq, Structural, Clone, Copy, Debug)]
pub enum ItemType {
    Furniture,
    Electronics,
    Books,
    Kitchen,
    Clothing,
    Other,
}

/// The condition of a listed item.
#[derive(PartialEq, Eq, Structural, Clone, Copy, Debug)]
pub enum Condition {
    Excellent,
    Good,
    Fair,
}

/// The pick-up location of a listed item.
#[derive(PartialEq, Eq, Structural, Clone, Copy, Debug)]
pub enum Location {
    CaryQuadEast,
    WileyHall,
    HarrisonHall,
    EarhartHall,
    HillenbrandHall,
    ThirdStreetSuites,
}

impl ItemType {
    pub open spec fn spec_code(self) -> u8 {
        match self {
            ItemType::Furniture => 0,
            ItemType::Electronics => 1,
            ItemType::Books => 2,
            ItemType::Kitchen => 3,
            ItemType::Clothing => 4,
            ItemType::Other => 5,
        }
    }

    /// The variant whose code is `v`, if any.
    pub fn try_from_u8(v: u8) -> (r: Option<ItemType>)
        ensures
            r matches Some(t) ==> t.spec_code() == v,
            r is None <==> v > 5,
    {
        match v {
            0 => Some(ItemType::Furniture),
            1 => Some(ItemType::Electronics),
            2 => Some(ItemType::Books),
            3 => Some(ItemType::Kitchen),
            4 => Some(ItemType::Clothing),
            5 => Some(ItemType::Other),
            _ => None,
        }
    }

    pub open spec fn spec_name(self) -> Seq<char> {
        match self {
            ItemType::Furniture => "Furniture"@,
            ItemType::Electronics => "Electronics"@,
            ItemType::Books => "Books"@,
            ItemType::Kitchen => "Kitchen"@,
            ItemType::Clothing => "Clothing"@,
            ItemType::Other => "Other"@,
        }
    }

    pub fn as_str(&self) -> (r: &'static str)
        ensures
            r@ == self.spec_name(),
    {
        match self {
            ItemType::Furniture => "Furniture",
            ItemType::Electronics => "Electronics",
            ItemType::Books => "Books",
            ItemType::Kitchen => "Kitchen",
            ItemType::Clothing => "Clothing",
            ItemType::Other => "Other",
        }
    }
}

impl Condition {
    pub open spec fn spec_code(self) -> u8 {
        match self {
            Condition::Excellent => 0,
            Condition::Good => 1,
            Condition::Fair => 2,
        }
    }

    /// The variant whose code is `v`, if any.
    pub fn try_from_u8(v: u8) -> (r: Option<Condition>)
        ensures
            r matches Some(c) ==> c.spec_code() == v,
            r is None <==> v > 2,
    {
        match v {
            0 => Some(Condition::Excellent),
            1 => Some(Condition::Good),
            2 => Some(Condition::Fair),
            _ => None,
        }
    }

    pub open spec fn spec_name(self) -> Seq<char> {
        match self {
            Condition::Excellent => "Excellent"@,
            Condition::Good => "Good"@,
            Condition::Fair => "Fair"@,
        }
    }

    pub fn as_str(&self) -> (r: &'static str)
        ensures
            r@ == self.spec_name(),
    {
        match self {
            Condition::Excellent => "Excellent",
            Condition::Good => "Good",
            Condition::Fair => "Fair",
        }
    }
}

impl Location {
    pub open spec fn spec_code(self) -> u8 {
        match self {
            Location::CaryQuadEast => 0,
            Location::WileyHall => 1,
            Location::HarrisonHall => 2,
            Location::EarhartHall => 3,
            Location::HillenbrandHall => 4,
            Location::ThirdStreetSuites => 5,
        }
    }

    /// The variant whose code is `v`, if any.
    pub fn try_from_u8(v: u8) -> (r: Option<Location>)
        ensures
            r matches Some(l) ==> l.spec_code() == v,
            r is None <==> v > 5,
    {
        match v {
            0 => Some(Location::CaryQuadEast),
            1 => Some(Location::WileyHall),
            2 => Some(Location::HarrisonHall),
            3 => Some(Location::EarhartHall),
            4 => Some(Location::HillenbrandHall),
            5 => Some(Location::ThirdStreetSuites),
            _ => None,
        }
    }

    pub open spec fn spec_name(self) -> Seq<char> {
        match self {
            Location::CaryQuadEast => "CaryQuadEast"@,
            Location::WileyHall => "WileyHall"@,
            Location::HarrisonHall => "HarrisonHall"@,
            Location::EarhartHall => "EarhartHall"@,
            Location::HillenbrandHall => "HillenbrandHall"@,
            Location::ThirdStreetSuites => "ThirdStreetSuites"@,
        }
    }

    pub fn as_str(&self) -> (r: &'static str)
        ensures
            r@ == self.spec_name(),
    {
        match self {
            Location::CaryQuadEast => "CaryQuadEast",
            Location::WileyHall => "WileyHall",
            Location::HarrisonHall => "HarrisonHall",
            Location::EarhartHall => "EarhartHall",
            Location::HillenbrandHall => "HillenbrandHall",
            Location::ThirdStreetSuites => "ThirdStreetSuites",
        }
    }
}

/// A new listing as a client submits it.
pub struct ItemPayload {
    pub item_type: ItemType,
    pub condition: Condition,
    pub title: String,
    pub description: String,
    pub location: Location,
}

/// A listing as it is served: its enums by name, its id as a 128-bit integer.
pub struct Item {
    pub item_id: u128,
    pub item_type: String,
    pub title: String,
    pub condition: String,
    pub location: String,
    pub description: String,
}

/// A stored row: id, item type, title, condition, location, description.
pub type ItemRow = (u128, i8, String, i8, i8, String);

pub open spec fn spec_i8_to_u8(v: i8) -> u8 {
    if v == i8::MIN {
        0
    } else if v < 0 {
        (-v) as u8
    } else {
        v as u8
    }
}

/// The absolute value of a stored tiny integer, 0 where it has none in `i8`.
pub fn convert_i8_to_u8(payload: &i8) -> (r: u8)
    ensures
        r == spec_i8_to_u8(*payload),
{
    let v = *payload;
    if v == i8::MIN {
        0
    } else if v < 0 {
        (-v) as u8
    } else {
        v as u8
    }
}

pub open spec fn spec_item_type_name(code: i8) -> Seq<char> {
    let c = spec_i8_to_u8(code);
    if c == 0 { "Furniture"@ } else if c == 1 { "Electronics"@ } else if c == 2 { "Books"@ }
    else if c == 3 { "Kitchen"@ } else if c == 4 { "Clothing"@ } else { "Other"@ }
}

pub open spec fn spec_condition_name(code: i8) -> Seq<char> {
    let c = spec_i8_to_u8(code);
    if c == 0 { "Excellent"@ } else if c == 1 { "Good"@ } else { "Fair"@ }
}

pub open spec fn spec_location_name(code: i8) -> Seq<char> {
    let c = spec_i8_to_u8(code);
    if c == 1 { "WileyHall"@ } else if c == 2 { "HarrisonHall"@ } else if c == 3 { "EarhartHall"@ }
    else if c == 4 { "HillenbrandHall"@ } else if c == 5 { "ThirdStreetSuites"@ }
    else { "CaryQuadEast"@ }
}

/// Whether `item` is what row `row` is served as.
pub open spec fn spec_converted(row: ItemRow, item: Item) -> bool {
    &&& item.item_id == row.0
    &&& item.item_type@ == spec_item_type_name(row.1)
    &&& item.title@ == row.2@
    &&& item.condition@ == spec_condition_name(row.3)
    &&& item.location@ == spec_location_name(row.4)
    &&& item.description@ == row.5@
}

fn convert_db_item(row: &ItemRow) -> (r: Item)
    ensures
        spec_converted(*row, r),
{
    let item_type = match ItemType::try_from_u8(convert_i8_to_u8(&row.1)) {
        Some(t) => t,
        None => ItemType::Other,
    };
    let condition = match Condition::try_from_u8(convert_i8_to_u8(&row.3)) {
        Some(c) => c,
        None => Condition::Fair,
    };
    let location = match Location::try_from_u8(convert_i8_to_u8(&row.4)) {
        Some(l) => l,
        None => Location::CaryQuadEast,
    };
    Item {
        item_id: row.0,
        item_type: item_type.as_str().to_owned(),
        title: row.2.clone(),
        condition: condition.as_str().to_owned(),
        location: location.as_str().to_owned(),
        description: row.5.clone(),
    }
}

/// Serves stored rows as listings, one for one and in order; an unknown
/// code falls back to `Other`, `Fair` or `CaryQuadEast`.
pub fn convert_db_items(row_vec: &Vec<ItemRow>) -> (r: Vec<Item>)
    ensures
        r.len() == row_vec.len(),
        forall|i: int| 0 <= i < r.len() ==> spec_converted(#[trigger] row_vec@[i], r@[i]),
{
    let mut out: Vec<Item> = Vec::new();
    let mut i: usize = 0;
    while i < row_vec.len()
        invariant
            i <= row_vec.len(),
            out.len() == i,
            forall|j: int| 0 <= j < i ==> spec_converted(#[trigger] row_vec@[j], out@[j]),
        decreases row_vec.len() - i,
    {
        let item = convert_db_item(&row_vec[i]);
        out.push(item);
        i = i + 1;
    }
    out
}

} // verus!
