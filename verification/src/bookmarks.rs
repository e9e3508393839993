//! The persisted bookmark model: an ordered sequence of saved
//! connections, updated by an upsert keyed first by explicit id and
//! otherwise by the natural key (host, port, username, protocol), and
//! a delete by id. Reading and writing the store file is the caller's
//! business; these functions transform the loaded sequence.

use vstd::prelude::*;

verus! {

/// A saved connection bookmark. `share` is meaningful only for the
/// smb protocol. The password is stored in cleartext in the persisted
/// store; a known limitation of the design, not hidden here.
#[derive(Debug, Clone)]
pub struct Connection {
    pub id: String,
    pub name: String,
    pub protocol: String,
    pub host: String,
    pub port: u16,
    pub username: String,
    pub password: String,
    pub share: Option<String>,
}

/// Two bookmarks describe the same endpoint: host, port, username and
/// protocol all agree.
pub open spec fn same_natural_key(a: Connection, b: Connection) -> bool {
    a.host@ == b.host@ && a.port == b.port && a.username@ == b.username@ && a.protocol@
        == b.protocol@
}

/// The update key as callers supply it: an optional explicit id.
pub open spec fn view_update_id(update_id: Option<&str>) -> Option<Seq<char>> {
    match update_id {
        Option::Some(id) => Option::Some(id@),
        Option::None => Option::None,
    }
}

/// Whether a stored bookmark is the one an upsert replaces: by id when
/// an explicit id was supplied, by natural key otherwise.
pub open spec fn upsert_matches(
    stored: Connection,
    incoming: Connection,
    update_id: Option<Seq<char>>,
) -> bool {
    match update_id {
        Option::Some(id) => stored.id@ == id,
        Option::None => same_natural_key(stored, incoming),
    }
}

/// The index of the first stored bookmark the upsert replaces, or -1
/// when none matches.
pub open spec fn upsert_index(
    s: Seq<Connection>,
    incoming: Connection,
    update_id: Option<Seq<char>>,
) -> int
    decreases s.len(),
{
    if s.len() == 0 {
        -1
    } else if upsert_matches(s[0], incoming, update_id) {
        0
    } else {
        let rest = upsert_index(s.drop_first(), incoming, update_id);
        if rest == -1 {
            -1
        } else {
            rest + 1
        }
    }
}

/// What saving a bookmark produces: the matching entry replaced in
/// place, or the new bookmark appended when nothing matches.
pub open spec fn upserted(
    s: Seq<Connection>,
    incoming: Connection,
    update_id: Option<Seq<char>>,
) -> Seq<Connection> {
    let i = upsert_index(s, incoming, update_id);
    if i >= 0 {
        s.update(i, incoming)
    } else {
        s.push(incoming)
    }
}

proof fn lemma_upsert_index_at(
    s: Seq<Connection>,
    incoming: Connection,
    update_id: Option<Seq<char>>,
    i: int,
)
    requires
        0 <= i <= s.len(),
        forall|k: int| 0 <= k < i ==> !upsert_matches(s[k], incoming, update_id),
    ensures
        i < s.len() && upsert_matches(s[i], incoming, update_id) ==> upsert_index(
            s,
            incoming,
            update_id,
        ) == i,
        i == s.len() ==> upsert_index(s, incoming, update_id) == -1,
    decreases i,
{
    if s.len() == 0 {
    } else if upsert_matches(s[0], incoming, update_id) {
    } else if i > 0 {
        lemma_upsert_index_at(s.drop_first(), incoming, update_id, i - 1);
    }
}

/// Whether a stored bookmark is the one the upsert would replace.
fn upsert_matches_exec(
    stored: &Connection,
    incoming: &Connection,
    update_id: Option<&str>,
) -> (r: bool)
    ensures
        match update_id {
            Option::Some(id) => r == (stored.id@ == id@),
            Option::None => r == same_natural_key(*stored, *incoming),
        },
{
    match update_id {
        Option::Some(id) => stored.id == id.to_owned(),
        Option::None => stored.host == incoming.host && stored.port == incoming.port
            && stored.username == incoming.username && stored.protocol == incoming.protocol,
    }
}

/// Saves a bookmark into the loaded sequence: updates the first entry
/// matched by id (when `update_id` is supplied) or by natural key
/// (when it is not), and appends the bookmark only when nothing
/// matches, so a re-saved endpoint never becomes a duplicate.
pub fn save_connection(
    connections: Vec<Connection>,
    connection: Connection,
    update_id: Option<&str>,
) -> (r: Vec<Connection>)
    ensures
        r@ == upserted(connections@, connection, view_update_id(update_id)),
        upsert_index(connections@, connection, view_update_id(update_id)) >= 0 ==> r@.len()
            == connections@.len(),
        upsert_index(connections@, connection, view_update_id(update_id)) == -1 ==> r@.len()
            == connections@.len() + 1,
{
    let ghost uid: Option<Seq<char>> = view_update_id(update_id);
    let ghost inc = connection;
    let mut v = connections;
    let n = v.len();
    let mut i: usize = 0;
    while i < n
        invariant
            n == v@.len(),
            i <= n,
            v@ == connections@,
            inc == connection,
            uid == view_update_id(update_id),
            forall|k: int| 0 <= k < i ==> !upsert_matches(v@[k], inc, uid),
        decreases n - i,
    {
        let matched = upsert_matches_exec(&v[i], &connection, update_id);
        proof {
            assert(matched == upsert_matches(v@[i as int], inc, uid));
        }
        if matched {
            proof {
                lemma_upsert_index_at(v@, inc, uid, i as int);
            }
            let ghost before = v@;
            v.set(i, connection);
            proof {
                assert(upsert_index(before, inc, uid) == i as int);
                assert(v@ == upserted(before, inc, uid));
            }
            return v;
        }
        i = i + 1;
    }
    proof {
        lemma_upsert_index_at(v@, inc, uid, n as int);
        assert(upsert_index(v@, inc, uid) == -1);
    }
    v.push(connection);
    v
}

/// The stored sequence with every bookmark of the given id removed.
pub open spec fn without_id(s: Seq<Connection>, id: Seq<char>) -> Seq<Connection> {
    s.filter(|c: Connection| c.id@ != id)
}

/// Removes every bookmark whose id equals `id`, keeping the order of
/// the rest.
pub fn delete_connection(connections: Vec<Connection>, id: &str) -> (r: Vec<Connection>)
    ensures
        r@ == without_id(connections@, id@),
{
    let ghost orig = connections@;
    let n = connections.len();
    let mut v = connections;
    let mut out: Vec<Connection> = Vec::new();
    proof {
        reveal(Seq::filter);
        assert(orig.take(0) =~= Seq::<Connection>::empty());
        assert(out@ == without_id(orig.take(0), id@));
    }
    let mut i: usize = 0;
    while v.len() > 0
        invariant
            n == orig.len(),
            orig.len() == i + v@.len(),
            v@ == orig.skip(i as int),
            out@ == without_id(orig.take(i as int), id@),
        decreases v@.len(),
    {
        let c = v.remove(0);
        proof {
            assert(c == orig[i as int]);
            assert(orig.skip(i as int).drop_first() =~= orig.skip(i + 1));
        }
        let keep = !(c.id == id.to_owned());
        if keep {
            out.push(c);
        }
        proof {
            reveal(Seq::filter);
            let stepped = orig.take(i + 1);
            assert(stepped.drop_last() =~= orig.take(i as int));
            assert(stepped.last() == c);
            if keep {
                assert(without_id(stepped, id@) == without_id(orig.take(i as int), id@).push(c));
            } else {
                assert(without_id(stepped, id@) == without_id(orig.take(i as int), id@));
            }
        }
        i = i + 1;
    }
    proof {
        assert(orig.take(i as int) =~= orig);
    }
    out
}

} // verus!
