use vstd::prelude::*;
use crate::models::RedisAction;

verus! {

/// One `Set-Cookie` instruction: a name, a value and a lifetime in seconds
/// (0 clears the cookie).
pub struct SetCookie {
    pub name: String,
    pub value: String,
    pub max_age: i64,
}

impl SetCookie {
    pub open spec fn spec_view(&self) -> (Seq<char>, Seq<char>, i64) {
        (self.name@, self.value@, self.max_age)
    }
}

/// The names of every cookie that the flows set.
pub open spec fn flow_cookie_names() -> Seq<Seq<char>> {
    seq![
        RedisAction::Session.spec_prefix(),
        RedisAction::Forgot.spec_prefix(),
        RedisAction::Update.spec_prefix(),
        RedisAction::Auth.spec_prefix(),
    ]
}

pub open spec fn jar_entry(name: Seq<char>, key: Seq<char>, value: Seq<char>, ttl: i64) -> (
    Seq<char>,
    Seq<char>,
    i64,
) {
    if name == key { (key, value, ttl) } else { (name, Seq::empty(), 0) }
}

/// The cookies of a response that sets `key`: every flow cookie is cleared,
/// then `key` is set to `value` for `ttl` seconds.
pub open spec fn cookie_jar(key: Seq<char>, value: Seq<char>, ttl: i64) -> Seq<(Seq<char>, Seq<char>, i64)> {
    let base = flow_cookie_names().map_values(|n: Seq<char>| jar_entry(n, key, value, ttl));
    if flow_cookie_names().contains(key) {
        base
    } else {
        base.push((key, value, ttl))
    }
}

pub open spec fn jar_view(r: Seq<SetCookie>) -> Seq<(Seq<char>, Seq<char>, i64)> {
    r.map_values(|c: SetCookie| c.spec_view())
}

fn jar_cookie(name: &str, key: &str, value: &str, ttl: i64) -> (r: SetCookie)
    ensures
        r.spec_view() == jar_entry(name@, key@, value@, ttl),
{
    let n = name.to_owned();
    let k = key.to_owned();
    if n == k {
        SetCookie { name: k, value: value.to_owned(), max_age: ttl }
    } else {
        SetCookie { name: n, value: String::new(), max_age: 0 }
    }
}

/// The cookies of a response that sets `key` to `value` for `ttl` seconds,
/// after clearing every flow cookie.
pub fn generate_cookie(key: &str, value: &str, ttl: i64) -> (r: Vec<SetCookie>)
    ensures
        jar_view(r@) == cookie_jar(key@, value@, ttl),
{
    let names = [
        RedisAction::Session.as_str(),
        RedisAction::Forgot.as_str(),
        RedisAction::Update.as_str(),
        RedisAction::Auth.as_str(),
    ];
    let mut r: Vec<SetCookie> = Vec::new();
    let mut found = false;
    let k = key.to_owned();
    let mut i: usize = 0;
    while i < 4
        invariant
            i <= 4,
            k@ == key@,
            forall|j: int| 0 <= j < 4 ==> (#[trigger] names@[j])@ == flow_cookie_names()[j],
            jar_view(r@) =~= flow_cookie_names().take(i as int).map_values(
                |n: Seq<char>| jar_entry(n, key@, value@, ttl),
            ),
            found == flow_cookie_names().take(i as int).contains(key@),
        decreases 4 - i,
    {
        let c = jar_cookie(names[i], key, value, ttl);
        let name_i = names[i].to_owned();
        if name_i == k {
            found = true;
        }
        proof {
            let t = flow_cookie_names().take(i as int);
            assert(flow_cookie_names().take(i + 1) =~= t.push(flow_cookie_names()[i as int]));
            assert(t.push(flow_cookie_names()[i as int]).contains(key@) == (t.contains(key@)
                || flow_cookie_names()[i as int] == key@)) by {
                if flow_cookie_names()[i as int] == key@ {
                    assert(t.push(flow_cookie_names()[i as int])[i as int] == key@);
                }
                if t.push(flow_cookie_names()[i as int]).contains(key@) {
                    let j = choose|j: int| 0 <= j < i + 1 && t.push(flow_cookie_names()[i as int])[j] == key@;
                    if j < i {
                        assert(t[j] == key@);
                    }
                }
            }
        }
        let ghost old_r = r@;
        r.push(c);
        proof {
            assert(r@ =~= old_r.push(c));
            assert(jar_view(r@) =~= flow_cookie_names().take(i + 1).map_values(
                |n: Seq<char>| jar_entry(n, key@, value@, ttl),
            )) by {
                assert(jar_view(old_r).len() == i);
                assert forall|j: int| 0 <= j < i + 1 implies jar_view(r@)[j]
                    == flow_cookie_names().take(i + 1).map_values(
                    |n: Seq<char>| jar_entry(n, key@, value@, ttl),
                )[j] by {
                    if j < i {
                        assert(jar_view(r@)[j] == jar_view(old_r)[j]);
                    }
                }
            }
        }
        i = i + 1;
    }
    proof {
        assert(flow_cookie_names().take(4) =~= flow_cookie_names());
    }
    if !found {
        r.push(SetCookie { name: k, value: value.to_owned(), max_age: ttl });
        proof {
            assert(jar_view(r@) =~= cookie_jar(key@, value@, ttl));
        }
    }
    r
}

/// The value of the first cookie named `key` among the request's cookies.
pub open spec fn find_cookie(s: Seq<(String, String)>, key: Seq<char>) -> Option<Seq<char>>
    decreases s.len(),
{
    if s.len() == 0 {
        None
    } else if s[0].0@ == key {
        Some(s[0].1@)
    } else {
        find_cookie(s.drop_first(), key)
    }
}

/// The value of the cookie named `key` among the request's `(name, value)` pairs.
pub fn get_cookie(cookies: &Vec<(String, String)>, key: &str) -> (r: Option<String>)
    ensures
        match find_cookie(cookies@, key@) {
            Some(v) => r matches Some(x) && x@ == v,
            None => r is None,
        },
{
    let k = key.to_owned();
    let mut i: usize = 0;
    proof {
        assert(cookies@.skip(0) =~= cookies@);
    }
    while i < cookies.len()
        invariant
            i <= cookies@.len(),
            k@ == key@,
            find_cookie(cookies@, key@) == find_cookie(cookies@.skip(i as int), key@),
        decreases cookies@.len() - i,
    {
        proof {
            assert(cookies@.skip(i as int).drop_first() =~= cookies@.skip(i + 1));
        }
        if cookies[i].0 == k {
            return Some(cookies[i].1.clone());
        }
        i = i + 1;
    }
    None
}

/// The decimal text of a non-negative number.
pub open spec fn natural_text(n: nat) -> Seq<char>
    decreases n,
{
    let d = (('0' as int) + (n % 10) as int) as char;
    if n < 10 {
        seq![d]
    } else {
        natural_text(n / 10) + seq![d]
    }
}

/// The decimal text of an integer, with a leading `-` where it is negative.
pub open spec fn integer_text(n: int) -> Seq<char> {
    if n < 0 {
        seq!['-'] + natural_text((-n) as nat)
    } else {
        natural_text(n as nat)
    }
}

/// The text of a `Set-Cookie` header: `name=value`, then `; HttpOnly`
/// where asked, `; SameSite=Strict` (or `Lax`), `; Secure` where asked,
/// `; Path=` and `; Max-Age=` with the seconds.
pub open spec fn set_cookie_text(
    name: Seq<char>,
    value: Seq<char>,
    max_age: i64,
    path: Seq<char>,
    http_only: bool,
    secure: bool,
    same_site_strict: bool,
) -> Seq<char> {
    name + "="@ + value + (if http_only { "; HttpOnly"@ } else { Seq::empty() }) + "; SameSite="@ + (
    if same_site_strict { "Strict"@ } else { "Lax"@ }) + (if secure { "; Secure"@ } else { Seq::empty() })
        + "; Path="@ + path + "; Max-Age="@ + integer_text(max_age as int)
}

/// Relies on cookie's `Cookie::build(..)` with path, `HttpOnly`, `Secure`,
/// `SameSite` (`Strict`, else `Lax`) and `Max-Age`, and on its `Display`,
/// which writes the attributes in that order and the whole seconds in decimal.
#[verifier::external_body]
fn render_cookie(
    name: &str,
    value: &str,
    max_age: i64,
    path: &str,
    http_only: bool,
    secure: bool,
    same_site_strict: bool,
) -> (r: String)
    ensures
        r@ == set_cookie_text(name@, value@, max_age, path@, http_only, secure, same_site_strict),
{
    let same_site = if same_site_strict { cookie::SameSite::Strict } else { cookie::SameSite::Lax };
    cookie::Cookie::build((name.to_owned(), value.to_owned()))
        .path(path.to_owned())
        .http_only(http_only)
        .secure(secure)
        .same_site(same_site)
        .max_age(cookie::time::Duration::seconds(max_age))
        .build()
        .to_string()
}

/// The `Set-Cookie` header of each cookie, in order: path `/`, `HttpOnly`,
/// `Secure`, `SameSite=Strict`.
pub fn set_cookie_headers(cookies: &Vec<SetCookie>) -> (r: Vec<String>)
    ensures
        r@.len() == cookies@.len(),
        forall|i: int| 0 <= i < r@.len() ==> (#[trigger] r@[i])@ == set_cookie_text(
            cookies@[i].name@,
            cookies@[i].value@,
            cookies@[i].max_age,
            "/"@,
            true,
            true,
            true,
        ),
{
    let mut r: Vec<String> = Vec::new();
    let mut i: usize = 0;
    while i < cookies.len()
        invariant
            i <= cookies@.len(),
            r@.len() == i,
            forall|j: int| 0 <= j < i ==> (#[trigger] r@[j])@ == set_cookie_text(
                cookies@[j].name@,
                cookies@[j].value@,
                cookies@[j].max_age,
                "/"@,
                true,
                true,
                true,
            ),
        decreases cookies@.len() - i,
    {
        let c = &cookies[i];
        r.push(render_cookie(c.name.as_str(), c.value.as_str(), c.max_age, "/", true, true, true));
        i = i + 1;
    }
    r
}

} // verus!
