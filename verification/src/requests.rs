//! The data exchanged with the Plantbuddy server, and the parts of the
//! requests that are computed rather than sent: credentials, addresses, and
//! how replies are read.
#![allow(non_snake_case)]

use base64::Engine;
use vstd::prelude::*;
use vstd::string::StringSliceAdditionalSpecFns;
use vstd::utf8::encode_utf8;

use crate::management::User;
use crate::role::{role_of_code, PlantBuddyRole};
use crate::text::{decimal, i64_to_decimal, push_char};

verus! {

/// The result of a request: the value, or the error's text.
pub type RequestResult<T> = Result<T, String>;

/// A sensor type as the server names it.
#[derive(Debug, PartialEq)]
pub struct SensorType {
    pub name: String,
    pub unit: String,
}

impl Clone for SensorType {
    fn clone(&self) -> (r: Self)
        ensures
            r == *self,
    {
        SensorType { name: self.name.clone(), unit: self.unit.clone() }
    }
}

impl Default for SensorType {
    fn default() -> (r: Self)
        ensures
            r.name@ == Seq::<char>::empty(),
            r.unit@ == Seq::<char>::empty(),
    {
        SensorType { name: String::new(), unit: String::new() }
    }
}

/// The range of values a plant group allows for one sensor type.
#[derive(Debug, PartialEq)]
pub struct SensorRange {
    pub sensorType: SensorType,
    pub min: i32,
    pub max: i32,
}

impl Clone for SensorRange {
    fn clone(&self) -> (r: Self)
        ensures
            r == *self,
    {
        SensorRange { sensorType: self.sensorType.clone(), min: self.min, max: self.max }
    }
}

impl Default for SensorRange {
    fn default() -> (r: Self)
        ensures
            r.sensorType.name@ == Seq::<char>::empty(),
            r.sensorType.unit@ == Seq::<char>::empty(),
            r.min == 0,
            r.max == 0,
    {
        SensorRange { sensorType: SensorType::default(), min: 0, max: 0 }
    }
}

/// The data of a plant group: its care tips and the sensor ranges that hold
/// for all its plants.
#[derive(Debug, PartialEq)]
pub struct PlantGroupMetadata {
    pub id: i32,
    pub name: String,
    pub description: String,
    pub careTips: Vec<String>,
    pub sensorRanges: Vec<SensorRange>,
}

/// The texts of a list of strings.
pub open spec fn texts(v: Seq<String>) -> Seq<Seq<char>> {
    v.map_values(|s: String| s@)
}

/// A plant group's data with its texts as character sequences.
pub struct PlantGroupModel {
    pub id: i32,
    pub name: Seq<char>,
    pub description: Seq<char>,
    pub careTips: Seq<Seq<char>>,
    pub sensorRanges: Seq<SensorRange>,
}

impl View for PlantGroupMetadata {
    type V = PlantGroupModel;

    open spec fn view(&self) -> PlantGroupModel {
        PlantGroupModel {
            id: self.id,
            name: self.name@,
            description: self.description@,
            careTips: texts(self.careTips@),
            sensorRanges: self.sensorRanges@,
        }
    }
}

/// A new plant group: no id, name, description or care tips, and the
/// ranges 0 to 0 for soil moisture and humidity (in percent) and for
/// temperature (in degrees).
pub open spec fn is_default_group(g: PlantGroupModel) -> bool {
    &&& g.id == 0
    &&& g.name == Seq::<char>::empty()
    &&& g.description == Seq::<char>::empty()
    &&& g.careTips.len() == 0
    &&& g.sensorRanges.len() == 3
    &&& g.sensorRanges[0].sensorType.name@ == "soil-moisture"@
    &&& g.sensorRanges[0].sensorType.unit@ == "percent"@
    &&& g.sensorRanges[1].sensorType.name@ == "humidity"@
    &&& g.sensorRanges[1].sensorType.unit@ == "percent"@
    &&& g.sensorRanges[2].sensorType.name@ == "temperature"@
    &&& g.sensorRanges[2].sensorType.unit@ == "celcius"@
    &&& forall|i: int| 0 <= i < 3 ==> #[trigger] g.sensorRanges[i].min == 0
        && g.sensorRanges[i].max == 0
}

fn new_range(name: &str, unit: &str) -> (r: SensorRange)
    ensures
        r.sensorType.name@ == name@,
        r.sensorType.unit@ == unit@,
        r.min == 0,
        r.max == 0,
{
    SensorRange {
        sensorType: SensorType { name: String::from_str(name), unit: String::from_str(unit) },
        min: 0,
        max: 0,
    }
}

impl Default for PlantGroupMetadata {
    fn default() -> (r: Self)
        ensures
            is_default_group(r@),
    {
        let mut ranges: Vec<SensorRange> = Vec::new();
        ranges.push(new_range("soil-moisture", "percent"));
        ranges.push(new_range("humidity", "percent"));
        ranges.push(new_range("temperature", "celcius"));
        PlantGroupMetadata {
            id: 0,
            name: String::new(),
            description: String::new(),
            careTips: Vec::new(),
            sensorRanges: ranges,
        }
    }
}

impl Clone for PlantGroupMetadata {
    fn clone(&self) -> (r: Self)
        ensures
            r@ == self@,
    {
        let r = PlantGroupMetadata {
            id: self.id,
            name: self.name.clone(),
            description: self.description.clone(),
            careTips: self.careTips.clone(),
            sensorRanges: self.sensorRanges.clone(),
        };
        assert(r.careTips@ =~= self.careTips@);
        assert(r.sensorRanges@ =~= self.sensorRanges@);
        r
    }
}

/// The data of a plant.
#[derive(Debug, PartialEq)]
pub struct PlantMetadata {
    pub name: String,
    pub description: String,
    pub species: String,
    pub location: String,
    pub additionalCareTips: Vec<String>,
    pub plantGroup: PlantGroupMetadata,
}

/// A plant's data with its texts as character sequences.
pub struct PlantModel {
    pub name: Seq<char>,
    pub description: Seq<char>,
    pub species: Seq<char>,
    pub location: Seq<char>,
    pub additionalCareTips: Seq<Seq<char>>,
    pub plantGroup: PlantGroupModel,
}

impl View for PlantMetadata {
    type V = PlantModel;

    open spec fn view(&self) -> PlantModel {
        PlantModel {
            name: self.name@,
            description: self.description@,
            species: self.species@,
            location: self.location@,
            additionalCareTips: texts(self.additionalCareTips@),
            plantGroup: self.plantGroup@,
        }
    }
}

/// A new plant: empty texts, no care tips, a new plant group.
pub open spec fn is_default_plant(p: PlantModel) -> bool {
    &&& p.name == Seq::<char>::empty()
    &&& p.description == Seq::<char>::empty()
    &&& p.species == Seq::<char>::empty()
    &&& p.location == Seq::<char>::empty()
    &&& p.additionalCareTips.len() == 0
    &&& is_default_group(p.plantGroup)
}

impl Default for PlantMetadata {
    fn default() -> (r: Self)
        ensures
            is_default_plant(r@),
    {
        PlantMetadata {
            name: String::new(),
            description: String::new(),
            species: String::new(),
            location: String::new(),
            additionalCareTips: Vec::new(),
            plantGroup: PlantGroupMetadata::default(),
        }
    }
}

impl Clone for PlantMetadata {
    fn clone(&self) -> (r: Self)
        ensures
            r@ == self@,
    {
        let r = PlantMetadata {
            name: self.name.clone(),
            description: self.description.clone(),
            species: self.species.clone(),
            location: self.location.clone(),
            additionalCareTips: self.additionalCareTips.clone(),
            plantGroup: self.plantGroup.clone(),
        };
        assert(r.additionalCareTips@ =~= self.additionalCareTips@);
        r
    }
}

/// The readings of one sensor of one plant or group: values and the times
/// they were taken.
#[derive(Debug, PartialEq)]
pub struct GraphData {
    pub values: Vec<i32>,
    pub timestamps: Vec<String>,
}

/// Readings with their lists as sequences.
pub struct GraphModel {
    pub values: Seq<i32>,
    pub timestamps: Seq<Seq<char>>,
}

impl View for GraphData {
    type V = GraphModel;

    open spec fn view(&self) -> GraphModel {
        GraphModel { values: self.values@, timestamps: texts(self.timestamps@) }
    }
}

impl Clone for GraphData {
    fn clone(&self) -> (r: Self)
        ensures
            r@ == self@,
    {
        let r = GraphData { values: self.values.clone(), timestamps: self.timestamps.clone() };
        assert(r.values@ =~= self.values@);
        assert(r.timestamps@ =~= self.timestamps@);
        r
    }
}

/// A user as the login request answers it, or as a user is created or
/// changed: name, password and role code.
#[derive(Debug, PartialEq)]
pub struct TempCreationUser {
    pub name: String,
    pub password: String,
    pub role: u64,
}

impl Clone for TempCreationUser {
    fn clone(&self) -> (r: Self)
        ensures
            r == *self,
    {
        TempCreationUser { name: self.name.clone(), password: self.password.clone(), role: self.role }
    }
}

impl Default for TempCreationUser {
    fn default() -> (r: Self)
        ensures
            r.name@ == Seq::<char>::empty(),
            r.password@ == Seq::<char>::empty(),
            r.role == 0,
    {
        TempCreationUser { name: String::new(), password: String::new(), role: 0 }
    }
}

/// The character of a six-bit value in the standard base64 alphabet
/// (RFC 4648): `A`-`Z`, `a`-`z`, `0`-`9`, `+`, `/`.
pub open spec fn base64_char(v: int) -> char {
    if v < 26 {
        (v + 'A' as int) as char
    } else if v < 52 {
        (v - 26 + 'a' as int) as char
    } else if v < 62 {
        (v - 52 + '0' as int) as char
    } else if v == 62 {
        '+'
    } else {
        '/'
    }
}

/// The standard base64 encoding (RFC 4648, with `=` padding) of `bytes`:
/// each group of three bytes gives four characters of six bits each; a
/// last group of one or two bytes is padded with `=` to four characters.
pub open spec fn base64_of(bytes: Seq<u8>) -> Seq<char>
    decreases bytes.len(),
{
    if bytes.len() == 0 {
        Seq::empty()
    } else if bytes.len() == 1 {
        seq![base64_char((bytes[0] as int) / 4), base64_char(((bytes[0] as int) % 4) * 16), '=', '=']
    } else if bytes.len() == 2 {
        seq![
            base64_char((bytes[0] as int) / 4),
            base64_char(((bytes[0] as int) % 4) * 16 + (bytes[1] as int) / 16),
            base64_char(((bytes[1] as int) % 16) * 4),
            '=',
        ]
    } else {
        seq![
            base64_char((bytes[0] as int) / 4),
            base64_char(((bytes[0] as int) % 4) * 16 + (bytes[1] as int) / 16),
            base64_char(((bytes[1] as int) % 16) * 4 + (bytes[2] as int) / 64),
            base64_char((bytes[2] as int) % 64),
        ] + base64_of(bytes.subrange(3, bytes.len() as int))
    }
}

/// The standard base64 encoding of the UTF-8 bytes of `text`.
pub open spec fn base64_standard(text: Seq<char>) -> Seq<char> {
    base64_of(encode_utf8(text))
}

/// A character of the standard base64 alphabet, or the padding `=`.
pub open spec fn is_base64_char(c: char) -> bool {
    ||| 'A' <= c <= 'Z'
    ||| 'a' <= c <= 'z'
    ||| '0' <= c <= '9'
    ||| c == '+'
    ||| c == '/'
    ||| c == '='
}

proof fn lemma_base64_char(v: int)
    requires
        0 <= v < 64,
    ensures
        is_base64_char(base64_char(v)),
{
}

/// A base64 encoding has four characters for every three bytes begun, all
/// of them from the alphabet or the padding.
pub proof fn lemma_base64_shape(bytes: Seq<u8>)
    ensures
        base64_of(bytes).len() == (bytes.len() + 2) / 3 * 4,
        forall|i: int| 0 <= i < base64_of(bytes).len() ==> is_base64_char(#[trigger] base64_of(bytes)[i]),
    decreases bytes.len(),
{
    let e = base64_of(bytes);
    if bytes.len() == 1 {
        lemma_base64_char((bytes[0] as int) / 4);
        lemma_base64_char(((bytes[0] as int) % 4) * 16);
    } else if bytes.len() == 2 {
        lemma_base64_char((bytes[0] as int) / 4);
        lemma_base64_char(((bytes[0] as int) % 4) * 16 + (bytes[1] as int) / 16);
        lemma_base64_char(((bytes[1] as int) % 16) * 4);
    } else if bytes.len() >= 3 {
        let rest = bytes.subrange(3, bytes.len() as int);
        lemma_base64_shape(rest);
        lemma_base64_char((bytes[0] as int) / 4);
        lemma_base64_char(((bytes[0] as int) % 4) * 16 + (bytes[1] as int) / 16);
        lemma_base64_char(((bytes[1] as int) % 16) * 4 + (bytes[2] as int) / 64);
        lemma_base64_char((bytes[2] as int) % 64);
        assert forall|i: int| 0 <= i < e.len() implies is_base64_char(#[trigger] e[i]) by {
            if i >= 4 {
                assert(e[i] == base64_of(rest)[i - 4]);
            }
        }
    }
}

/// The six-bit value of a character of the standard base64 alphabet (0
/// for any other character).
pub open spec fn base64_value(c: char) -> int {
    if 'A' <= c <= 'Z' {
        c as int - 'A' as int
    } else if 'a' <= c <= 'z' {
        c as int - 'a' as int + 26
    } else if '0' <= c <= '9' {
        c as int - '0' as int + 52
    } else if c == '+' {
        62
    } else if c == '/' {
        63
    } else {
        0
    }
}

/// Standard base64 decoding (RFC 4648): each group of four characters
/// gives three bytes, or fewer where the group ends in `=` padding.
pub open spec fn base64_decoded(cs: Seq<char>) -> Seq<u8>
    decreases cs.len(),
{
    if cs.len() < 4 {
        Seq::empty()
    } else {
        let v0 = base64_value(cs[0]);
        let v1 = base64_value(cs[1]);
        let v2 = base64_value(cs[2]);
        let v3 = base64_value(cs[3]);
        let b0 = (v0 * 4 + v1 / 16) as u8;
        let b1 = ((v1 % 16) * 16 + v2 / 4) as u8;
        let b2 = ((v2 % 4) * 64 + v3) as u8;
        if cs[2] == '=' {
            seq![b0]
        } else if cs[3] == '=' {
            seq![b0, b1]
        } else {
            seq![b0, b1, b2] + base64_decoded(cs.subrange(4, cs.len() as int))
        }
    }
}

proof fn lemma_base64_value(v: int)
    requires
        0 <= v < 64,
    ensures
        base64_value(base64_char(v)) == v,
        base64_char(v) != '=',
{
}

/// Decoding the standard base64 encoding of bytes gives the bytes back.
pub proof fn lemma_base64_round_trip(bytes: Seq<u8>)
    ensures
        base64_decoded(base64_of(bytes)) == bytes,
    decreases bytes.len(),
{
    let e = base64_of(bytes);
    if bytes.len() == 0 {
        assert(base64_decoded(e) =~= bytes);
    } else {
        let x0 = bytes[0] as int;
        let x1 = if bytes.len() > 1 { bytes[1] as int } else { 0 };
        let x2 = if bytes.len() > 2 { bytes[2] as int } else { 0 };
        let v0 = x0 / 4;
        let v1 = (x0 % 4) * 16 + x1 / 16;
        let v2 = (x1 % 16) * 4 + x2 / 64;
        let v3 = x2 % 64;
        lemma_base64_value(v0);
        lemma_base64_value(v1);
        lemma_base64_value(v2);
        lemma_base64_value(v3);
        assert(v0 * 4 + v1 / 16 == x0);
        assert((v1 % 16) * 16 + v2 / 4 == x1);
        assert((v2 % 4) * 64 + v3 == x2);
        if bytes.len() == 1 {
            assert(e[0] == base64_char(v0) && e[1] == base64_char(v1) && e[2] == '=');
            assert(base64_decoded(e) =~= bytes);
        } else if bytes.len() == 2 {
            assert(e[0] == base64_char(v0) && e[1] == base64_char(v1));
            assert(e[2] == base64_char((x1 % 16) * 4) && e[3] == '=');
            assert(base64_decoded(e) =~= bytes);
        } else {
            let rest = bytes.subrange(3, bytes.len() as int);
            lemma_base64_round_trip(rest);
            lemma_base64_shape(rest);
            assert(e.subrange(4, e.len() as int) =~= base64_of(rest));
            assert(e[0] == base64_char(v0) && e[1] == base64_char(v1));
            assert(e[2] == base64_char(v2) && e[3] == base64_char(v3));
            assert(base64_decoded(e) =~= seq![bytes[0], bytes[1], bytes[2]] + rest);
            assert(seq![bytes[0], bytes[1], bytes[2]] + rest =~= bytes);
        }
    }
}

/// `base64::engine::general_purpose::STANDARD.encode`: the standard base64
/// encoding of the UTF-8 bytes of `text` (RFC 4648 alphabet, `=` padding,
/// as the crate documents). The crate panics where the encoded length does
/// not fit in a `usize`.
#[verifier::external_body]
fn base64_encode(text: &str) -> (encoded: String)
    requires
        (text.spec_bytes().len() + 2) / 3 * 4 <= usize::MAX,
    ensures
        encoded@ == base64_standard(text@),
{
    base64::engine::general_purpose::STANDARD.encode(text)
}

/// `username:password`, the text that basic authentication encodes.
pub open spec fn credentials(username: Seq<char>, password: Seq<char>) -> Seq<char> {
    username + seq![':'] + password
}

/// The credentials can be encoded: their base64 form has a length that fits
/// in a `usize`.
pub open spec fn encodable(username: Seq<char>, password: Seq<char>) -> bool {
    (encode_utf8(credentials(username, password)).len() + 2) / 3 * 4 <= usize::MAX
}

/// Encodes the given username and password as a Base64-encoded string.
pub fn encode_credentials(username: String, password: String) -> (encoded: String)
    requires
        encodable(username@, password@),
    ensures
        encoded@ == base64_standard(credentials(username@, password@)),
        encoded@.len() == (encode_utf8(credentials(username@, password@)).len() + 2) / 3 * 4,
        forall|i: int| 0 <= i < encoded@.len() ==> is_base64_char(#[trigger] encoded@[i]),
        base64_decoded(encoded@) == encode_utf8(credentials(username@, password@)),
{
    let mut combined = username;
    push_char(&mut combined, ':');
    combined.append(password.as_str());
    assert(combined@ =~= credentials(username@, password@));
    proof {
        lemma_base64_shape(encode_utf8(credentials(username@, password@)));
        lemma_base64_round_trip(encode_utf8(credentials(username@, password@)));
    }
    base64_encode(combined.as_str())
}

/// The value of the `Authorization` header for basic authentication.
pub open spec fn basic_authorization_value(username: Seq<char>, password: Seq<char>) -> Seq<char> {
    "Basic "@ + base64_standard(credentials(username, password))
}

/// The `Authorization` header value that the client sends with every
/// request: `Basic ` and the encoded credentials.
pub fn basic_authorization(username: String, password: String) -> (value: String)
    requires
        encodable(username@, password@),
    ensures
        value@ == basic_authorization_value(username@, password@),
{
    let mut value = String::from_str("Basic ");
    let encoded = encode_credentials(username, password);
    value.append(encoded.as_str());
    value
}

/// The address all requests go to.
pub open spec fn endpoint() -> Seq<char> {
    "https://pb.mfloto.com/v1/"@
}

/// The resources of the server that the client asks for.
pub enum Route {
    /// Checks the credentials and answers the user's role.
    Login,
    /// The ids of all users.
    Users,
    /// Where new users are created.
    NewUser,
    /// One user, by id.
    User(i64),
    /// Where new plants are created.
    Plants,
    /// One plant, by id.
    Plant(String),
    /// Where new plant groups are created.
    PlantGroups,
    /// One plant group, by id.
    PlantGroup(String),
    /// Ids and names of all plants.
    PlantsOverview,
    /// Ids and names of all plant groups.
    PlantGroupsOverview,
    /// Readings of one sensor of the plant (or the group) `id` between the
    /// times `from` and `to`. The server takes the id as the parameter
    /// `plant` for groups as well; that it answers a group's readings there
    /// is an assumption of this client.
    SensorData { sensor: String, id: String, from: String, to: String },
}

/// The path of a route below the endpoint.
pub open spec fn route_path(route: Route) -> Seq<char> {
    match route {
        Route::Login => "user/login"@,
        Route::Users => "users"@,
        Route::NewUser => "user"@,
        Route::User(id) => "user/"@ + decimal(id as int),
        Route::Plants => "plant"@,
        Route::Plant(id) => "plant/"@ + id@,
        Route::PlantGroups => "plant-group"@,
        Route::PlantGroup(id) => "plant-group/"@ + id@,
        Route::PlantsOverview => "plants/overview"@,
        Route::PlantGroupsOverview => "plant-groups/overview"@,
        Route::SensorData { sensor, id, from, to } => "sensor-data?sensor="@ + sensor@
            + "&plant="@ + id@ + "&from="@ + from@
            + "&to="@ + to@,
    }
}

impl Route {
    /// The full address of the route.
    pub fn url(&self) -> (url: String)
        ensures
            url@ == endpoint() + route_path(*self),
    {
        let mut url = String::from_str("https://pb.mfloto.com/v1/");
        match self {
            Route::Login => url.append("user/login"),
            Route::Users => url.append("users"),
            Route::NewUser => url.append("user"),
            Route::User(id) => {
                url.append("user/");
                let digits = i64_to_decimal(*id);
                url.append(digits.as_str());
            },
            Route::Plants => url.append("plant"),
            Route::Plant(id) => {
                url.append("plant/");
                url.append(id.as_str());
            },
            Route::PlantGroups => url.append("plant-group"),
            Route::PlantGroup(id) => {
                url.append("plant-group/");
                url.append(id.as_str());
            },
            Route::PlantsOverview => url.append("plants/overview"),
            Route::PlantGroupsOverview => url.append("plant-groups/overview"),
            Route::SensorData { sensor, id, from, to } => {
                url.append("sensor-data?sensor=");
                url.append(sensor.as_str());
                url.append("&plant=");
                url.append(id.as_str());
                url.append("&from=");
                url.append(from.as_str());
                url.append("&to=");
                url.append(to.as_str());
            },
        }
        url
    }
}

/// The reply the server gives where it has nothing under `key`:
/// `{"key":null}`.
pub open spec fn null_reply(key: Seq<char>) -> Seq<char> {
    "{\""@ + key + "\":null}"@
}

/// Whether `text` is the reply that says there is nothing under `key`.
pub fn is_null_reply(text: &str, key: &str) -> (r: bool)
    ensures
        r == (text@ == null_reply(key@)),
{
    let mut expected = String::from_str("{\"");
    expected.append(key);
    expected.append("\":null}");
    crate::sensors::string_eq_str(&expected, text)
}

/// The values of the successful results, in order.
pub open spec fn successes<T>(results: Seq<RequestResult<T>>) -> Seq<T>
    decreases results.len(),
{
    if results.len() == 0 {
        Seq::empty()
    } else {
        match results.last() {
            Ok(v) => successes(results.drop_last()).push(v),
            Err(_) => successes(results.drop_last()),
        }
    }
}

/// Keeps the successful results of requests sent together, in order; the
/// failed ones are dropped.
pub fn collect_successes<T>(results: Vec<RequestResult<T>>) -> (r: Vec<T>)
    ensures
        r@ == successes(results@),
{
    let ghost all = results@;
    let mut kept: Vec<T> = Vec::new();
    let mut rest = results;
    while rest.len() > 0
        invariant
            successes(all) == successes(rest@) + kept@,
        decreases rest.len(),
    {
        let ghost before = rest@;
        let last = rest.pop().unwrap();
        assert(rest@ =~= before.drop_last());
        let ghost old_kept = kept@;
        match last {
            Ok(v) => {
                kept.insert(0, v);
                assert(kept@ =~= seq![v] + old_kept);
                assert(successes(rest@).push(v) + old_kept =~= successes(rest@) + kept@);
            },
            Err(_) => {},
        }
    }
    assert(rest@ =~= Seq::<RequestResult<T>>::empty());
    kept
}

/// The role that a login reply names: the field `role` of the reply, read
/// as JSON, as an unsigned integer; `None` where the reply is no JSON or
/// has no such field.
pub uninterp spec fn login_reply_role(text: Seq<char>) -> Option<u64>;

/// `serde_json::from_str::<Value>` of the reply, then `["role"].as_u64()`:
/// the role the reply names (`None` where the text is no JSON, where it has
/// no field `role`, or where that is no unsigned integer).
#[verifier::external_body]
fn role_in_login_reply(text: &str) -> (r: Option<u64>)
    ensures
        r == login_reply_role(text@),
{
    match serde_json::from_str::<serde_json::Value>(text) {
        Ok(v) => v["role"].as_u64(),
        Err(_) => None,
    }
}

/// The logged-in user that a login reply gives: the credentials that were
/// sent and the role the reply names; `None` where it names none.
pub fn user_from_login_reply(username: String, password: String, text: &str) -> (r: Option<
    TempCreationUser,
>)
    ensures
        login_reply_role(text@) is None ==> r is None,
        login_reply_role(text@) matches Some(code) ==> r == Some(
            TempCreationUser { name: username, password: password, role: code },
        ),
{
    login_user(username, password, role_in_login_reply(text))
}

/// The entries of an overview reply: for each element of the list under
/// `key` of the reply, read as JSON, its `id` and `name` each written back
/// as JSON text; `None` where the reply is no JSON, has no list under
/// `key`, or an element lacks one of the two fields.
pub uninterp spec fn overview_id_names(text: Seq<char>, key: Seq<char>) -> Option<
    Seq<(Seq<char>, Seq<char>)>,
>;

/// The texts of a list of pairs of strings.
pub open spec fn string_pairs(v: Seq<(String, String)>) -> Seq<(Seq<char>, Seq<char>)> {
    v.map_values(|p: (String, String)| (p.0@, p.1@))
}

/// `serde_json::from_str::<Value>` of the reply, then for each element of
/// the array under `key` the `to_string` of its `id` and `name` values, in
/// order (see `overview_id_names`).
#[verifier::external_body]
fn overview_entries(text: &str, key: &str) -> (r: Option<Vec<(String, String)>>)
    ensures
        match r {
            Some(v) => overview_id_names(text@, key@) == Some(string_pairs(v@)),
            None => overview_id_names(text@, key@) is None,
        },
{
    let value: serde_json::Value = serde_json::from_str(text).ok()?;
    let mut pairs = Vec::new();
    for entry in value.get(key)?.as_array()? {
        pairs.push((entry.get("id")?.to_string(), entry.get("name")?.to_string()));
    }
    Some(pairs)
}

/// The ids and names that an overview reply lists under `key` (written as
/// JSON): none where the reply says there is nothing (`{"key":null}`),
/// else the reply's entries; `None` where the reply is no such list.
pub fn id_names_from_overview(text: &str, key: &str) -> (r: Option<Vec<(String, String)>>)
    ensures
        text@ == null_reply(key@) ==> (r matches Some(v) && v@.len() == 0),
        text@ != null_reply(key@) ==> match r {
            Some(v) => overview_id_names(text@, key@) == Some(string_pairs(v@)),
            None => overview_id_names(text@, key@) is None,
        },
{
    if is_null_reply(text, key) {
        Some(Vec::new())
    } else {
        overview_entries(text, key)
    }
}

/// The logged-in user that the login reply gives: the credentials that were
/// sent, and the role the reply names. `None` where the reply names no
/// role as an unsigned integer.
pub fn login_user(username: String, password: String, role: Option<u64>) -> (r: Option<
    TempCreationUser,
>)
    ensures
        role is None ==> r is None,
        role matches Some(code) ==> r == Some(
            TempCreationUser { name: username, password: password, role: code },
        ),
{
    match role {
        Some(code) => Some(TempCreationUser { name: username, password, role: code }),
        None => None,
    }
}

/// A user as the server describes it: the id and name it answers, and the
/// role its code names; no password is known. `None` where the code names
/// no role.
pub fn user_from_reply(id: u32, name: String, role: u64) -> (r: Option<User>)
    ensures
        role_of_code(role) is None ==> r is None,
        role_of_code(role) matches Some(rl) ==> r matches Some(u) && u.id == id && u.name == name
            && u.password@ == Seq::<char>::empty() && u.role == rl,
{
    match PlantBuddyRole::from_code(role) {
        Some(rl) => Some(User { id, name, role: rl, password: String::new() }),
        None => None,
    }
}

} // verus!
