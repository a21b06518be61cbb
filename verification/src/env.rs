//! Settings read from the environment.
use vstd::prelude::*;

verus! {

/// Whether the character has Unicode's White_Space property: the controls
/// U+0009 to U+000D, the space, U+0085, the no-break space U+00A0, U+1680, the
/// spaces U+2000 to U+200A, the line and paragraph separators U+2028 and
/// U+2029, U+202F, U+205F and the ideographic space U+3000.
pub open spec fn is_white_space(c: char) -> bool {
    let n = c as u32;
    ||| 0x09 <= n <= 0x0d
    ||| n == 0x20
    ||| n == 0x85
    ||| n == 0xa0
    ||| n == 0x1680
    ||| 0x2000 <= n <= 0x200a
    ||| n == 0x2028
    ||| n == 0x2029
    ||| n == 0x202f
    ||| n == 0x205f
    ||| n == 0x3000
}

/// Calls `char::is_whitespace`, which the standard library documents as true
/// exactly for the characters with Unicode's White_Space property, the set
/// that `is_white_space` lists.
#[verifier::external_body]
fn char_is_whitespace(c: char) -> (r: bool)
    ensures
        r == is_white_space(c),
{
    c.is_whitespace()
}

/// Whether the text holds nothing but white space.
pub open spec fn blank(s: Seq<char>) -> bool {
    forall|i: int| 0 <= i < s.len() ==> is_white_space(#[trigger] s[i])
}

/// Whether the text holds something other than white space.
pub fn has_content(s: &str) -> (b: bool)
    ensures
        b == !blank(s@),
{
    let n = s.unicode_len();
    let mut i: usize = 0;
    while i < n
        invariant
            n == s@.len(),
            i <= n,
            forall|j: int| 0 <= j < i ==> is_white_space(#[trigger] s@[j]),
        decreases n - i,
    {
        let c = s.get_char(i);
        if !char_is_whitespace(c) {
            assert(!is_white_space(s@[i as int]));
            return true;
        }
        i = i + 1;
    }
    false
}

/// A variable's value, kept only when it holds something other than white space.
pub fn present_value(value: Option<String>) -> (r: Option<String>)
    ensures
        match value {
            Some(v) => if blank(v@) {
                r is None
            } else {
                r == Some(v)
            },
            None => r is None,
        },
{
    match value {
        Some(v) => if has_content(v.as_str()) {
            Some(v)
        } else {
            None
        },
        None => None,
    }
}

/// The URL of the Redis server: the password, when there is one, before the
/// host, and the database number, when there is one, after the port.
pub open spec fn redis_url_text(
    host: Seq<char>,
    port: Seq<char>,
    db: Option<Seq<char>>,
    auth: Option<Seq<char>>,
) -> Seq<char> {
    let pass = match auth {
        Some(a) => a + "@"@,
        None => Seq::empty(),
    };
    let db = match db {
        Some(d) => "/"@ + d,
        None => Seq::empty(),
    };
    "redis://"@ + pass + host + ":"@ + port + db
}

/// Given a database number, the URL ends with "/" and that number, whatever
/// the password.
pub proof fn lemma_redis_url_ends_with_db(
    host: Seq<char>,
    port: Seq<char>,
    d: Seq<char>,
    auth: Option<Seq<char>>,
)
    ensures
        redis_url_text(host, port, Some(d), auth).len() >= d.len() + 1,
        redis_url_text(host, port, Some(d), auth).subrange(
            redis_url_text(host, port, Some(d), auth).len() - d.len() - 1,
            redis_url_text(host, port, Some(d), auth).len() as int,
        ) == "/"@ + d,
{
    reveal_strlit("/");
    let u = redis_url_text(host, port, Some(d), auth);
    let n = u.len() - d.len() - 1;
    assert(u.subrange(n, u.len() as int) =~= "/"@ + d);
}

/// Without a database number, the URL ends with ":" and the port, whatever
/// the password.
pub proof fn lemma_redis_url_ends_with_port(host: Seq<char>, port: Seq<char>, auth: Option<Seq<char>>)
    ensures
        redis_url_text(host, port, None, auth).len() >= port.len() + 1,
        redis_url_text(host, port, None, auth).subrange(
            redis_url_text(host, port, None, auth).len() - port.len() - 1,
            redis_url_text(host, port, None, auth).len() as int,
        ) == ":"@ + port,
{
    reveal_strlit(":");
    let u = redis_url_text(host, port, None, auth);
    let n = u.len() - port.len() - 1;
    assert(u.subrange(n, u.len() as int) =~= ":"@ + port);
}

/// Without a password the URL is the scheme, the host, ":" and the port,
/// followed by the database part; a password only inserts itself and "@"
/// after the scheme and leaves the rest as it is without one.
pub proof fn lemma_redis_url_password_only_inserted(
    host: Seq<char>,
    port: Seq<char>,
    db: Option<Seq<char>>,
    a: Seq<char>,
)
    ensures
        redis_url_text(host, port, db, None).subrange(0, 8 + host.len() + 1 + port.len() as int)
            == "redis://"@ + host + ":"@ + port,
        redis_url_text(host, port, db, Some(a)) == "redis://"@ + a + "@"@ + redis_url_text(
            host,
            port,
            db,
            None,
        ).subrange(8, redis_url_text(host, port, db, None).len() as int),
{
    reveal_strlit("redis://");
    reveal_strlit(":");
    reveal_strlit("@");
    reveal_strlit("/");
    let u = redis_url_text(host, port, db, None);
    assert(u.subrange(0, 8 + host.len() + 1 + port.len() as int) =~= "redis://"@ + host + ":"@ + port);
    assert(redis_url_text(host, port, db, Some(a)) =~= "redis://"@ + a + "@"@ + u.subrange(
        8,
        u.len() as int,
    ));
}

/// The URL of the Redis server.
pub fn redis_url(host: &str, port: &str, db: Option<&str>, auth: Option<&str>) -> (url: String)
    ensures
        url@ == redis_url_text(
            host@,
            port@,
            match db {
                Some(d) => Some(d@),
                None => None,
            },
            match auth {
                Some(a) => Some(a@),
                None => None,
            },
        ),
        db matches Some(d) ==> url@.len() >= d@.len() + 1 && url@.subrange(
            url@.len() - d@.len() - 1,
            url@.len() as int,
        ) == "/"@ + d@,
        db is None ==> url@.len() >= port@.len() + 1 && url@.subrange(
            url@.len() - port@.len() - 1,
            url@.len() as int,
        ) == ":"@ + port@,
{
    proof {
        let a = match auth {
            Some(a) => Some(a@),
            None => None,
        };
        match db {
            Some(d) => lemma_redis_url_ends_with_db(host@, port@, d@, a),
            None => lemma_redis_url_ends_with_port(host@, port@, a),
        }
    }
    let mut url = String::from_str("redis://");
    match auth {
        Some(a) => {
            url.append(a);
            url.append("@");
        },
        None => {},
    }
    url.append(host);
    url.append(":");
    url.append(port);
    match db {
        Some(d) => {
            url.append("/");
            url.append(d);
        },
        None => {},
    }
    url
}

} // verus!
