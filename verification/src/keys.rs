//! The signing keys of a token issuer: how they are published, and which of them are kept.

use vstd::prelude::*;

use crate::jwt::rsa_components_ok;
use crate::text::same_text;

verus! {

/// Where an issuer publishes its keys.
#[derive(Debug)]
pub struct OidcDiscovery {
    pub jwks_uri: String,
}

/// The keys that an issuer publishes.
#[derive(Debug)]
pub struct JwkSet {
    pub keys: Vec<Jwk>,
}

/// A published key. `n` and `e` are empty unless it is an RSA key.
#[derive(Debug)]
pub struct Jwk {
    pub kid: String,
    pub kty: String,
    pub n: String,
    pub e: String,
}

/// The two components of an RSA public key, as a JWK writes them.
#[derive(Debug)]
pub struct RsaKey {
    pub n: String,
    pub e: String,
}

/// The mathematical value of a [`Jwk`].
pub struct JwkView {
    pub kid: Seq<char>,
    pub kty: Seq<char>,
    pub n: Seq<char>,
    pub e: Seq<char>,
}

/// The mathematical value of an [`RsaKey`].
pub struct RsaKeyView {
    pub n: Seq<char>,
    pub e: Seq<char>,
}

impl View for Jwk {
    type V = JwkView;

    open spec fn view(&self) -> JwkView {
        JwkView { kid: self.kid@, kty: self.kty@, n: self.n@, e: self.e@ }
    }
}

impl View for RsaKey {
    type V = RsaKeyView;

    open spec fn view(&self) -> RsaKeyView {
        RsaKeyView { n: self.n@, e: self.e@ }
    }
}

impl View for JwkSet {
    type V = Seq<JwkView>;

    open spec fn view(&self) -> Seq<JwkView> {
        self.keys@.map_values(|jwk: Jwk| jwk@)
    }
}

impl Clone for RsaKey {
    fn clone(&self) -> (r: Self)
        ensures
            r@ == self@,
    {
        RsaKey { n: self.n.clone(), e: self.e.clone() }
    }
}

struct KeyEntry {
    kid: String,
    key: RsaKey,
}

/// RSA keys by key identifier.
pub struct KeyTable {
    entries: Vec<KeyEntry>,
}

/// The entry at `i` is for `kid`.
spec fn entry_for(entries: Seq<KeyEntry>, kid: Seq<char>, i: int) -> bool {
    0 <= i < entries.len() && entries[i].kid@ == kid
}

spec fn table_of(entries: Seq<KeyEntry>) -> Map<Seq<char>, RsaKeyView> {
    Map::new(
        |kid: Seq<char>| exists|i: int| entry_for(entries, kid, i),
        |kid: Seq<char>| entries[choose|i: int| entry_for(entries, kid, i)].key@,
    )
}

/// No two entries are for one key identifier.
spec fn distinct(entries: Seq<KeyEntry>) -> bool {
    forall|i: int, j: int|
        0 <= i < j < entries.len() ==> (#[trigger] entries[i]).kid@ != (#[trigger] entries[j]).kid@
}

impl View for KeyTable {
    type V = Map<Seq<char>, RsaKeyView>;

    closed spec fn view(&self) -> Map<Seq<char>, RsaKeyView> {
        table_of(self.entries@)
    }
}

proof fn lemma_table_at(entries: Seq<KeyEntry>, i: int)
    requires
        distinct(entries),
        0 <= i < entries.len(),
    ensures
        table_of(entries).contains_key(entries[i].kid@),
        table_of(entries)[entries[i].kid@] == entries[i].key@,
{
    let kid = entries[i].kid@;
    assert(entry_for(entries, kid, i));
    let j = choose|j: int| entry_for(entries, kid, j);
    assert(entry_for(entries, kid, j));
    assert(i == j);
}

impl KeyTable {
    #[verifier::type_invariant]
    spec fn wf(self) -> bool {
        distinct(self.entries@)
    }

    /// A table without keys.
    pub fn new() -> (r: Self)
        ensures
            r@ == Map::<Seq<char>, RsaKeyView>::empty(),
    {
        let r = KeyTable { entries: Vec::new() };
        assert(r@ =~= Map::<Seq<char>, RsaKeyView>::empty());
        r
    }

    fn position(&self, kid: &str) -> (r: Option<usize>)
        ensures
            match r {
                Some(i) => entry_for(self.entries@, kid@, i as int),
                None => forall|i: int| !entry_for(self.entries@, kid@, i),
            },
    {
        let mut i: usize = 0;
        while i < self.entries.len()
            invariant
                i <= self.entries@.len(),
                forall|j: int| 0 <= j < i ==> !entry_for(self.entries@, kid@, j),
            decreases self.entries@.len() - i,
        {
            if same_text(self.entries[i].kid.as_str(), kid) {
                return Some(i);
            }
            i = i + 1;
        }
        None
    }

    /// The key for `kid`, if there is one.
    pub fn get(&self, kid: &str) -> (r: Option<RsaKey>)
        ensures
            match r {
                Some(key) => self@.contains_key(kid@) && self@[kid@] == key@,
                None => !self@.contains_key(kid@),
            },
    {
        proof {
            use_type_invariant(self);
        }
        match self.position(kid) {
            Some(i) => {
                proof {
                    lemma_table_at(self.entries@, i as int);
                }
                Some(self.entries[i].key.clone())
            },
            None => None,
        }
    }

    /// The table with `key` for `kid`, in place of the key that it may have had.
    pub fn insert(self, kid: String, key: RsaKey) -> (r: Self)
        ensures
            r@ == self@.insert(kid@, key@),
    {
        proof {
            use_type_invariant(&self);
        }
        let position = self.position(kid.as_str());
        let ghost old_entries = self.entries@;
        let mut entries = self.entries;
        let ghost at: int = match position {
            Some(i) => i as int,
            None => entries@.len() as int,
        };
        match position {
            Some(i) => {
                entries.set(i, KeyEntry { kid, key });
            },
            None => {
                entries.push(KeyEntry { kid, key });
            },
        }
        proof {
            assert forall|i: int, j: int| 0 <= i < j < entries@.len() implies (
            #[trigger] entries@[i]).kid@ != (#[trigger] entries@[j]).kid@ by {
                if i != at {
                    assert(entries@[i] == old_entries[i]);
                    assert(!entry_for(old_entries, kid@, i) || at < old_entries.len());
                }
                if j != at {
                    assert(entries@[j] == old_entries[j]);
                    assert(!entry_for(old_entries, kid@, j) || at < old_entries.len());
                }
            }
            let before = table_of(old_entries);
            let after = table_of(entries@);
            assert forall|k: Seq<char>| after.contains_key(k) == before.insert(
                kid@,
                key@,
            ).contains_key(k) by {
                if after.contains_key(k) && k != kid@ {
                    let i = choose|i: int| entry_for(entries@, k, i);
                    assert(entry_for(old_entries, k, i));
                }
                if before.contains_key(k) && k != kid@ {
                    let i = choose|i: int| entry_for(old_entries, k, i);
                    assert(entry_for(entries@, k, i));
                }
                if k == kid@ {
                    assert(entry_for(entries@, k, at));
                }
            }
            assert forall|k: Seq<char>| after.contains_key(k) implies after[k] == before.insert(
                kid@,
                key@,
            )[k] by {
                let i = choose|i: int| entry_for(entries@, k, i);
                lemma_table_at(entries@, i);
                if k != kid@ {
                    assert(entry_for(old_entries, k, i));
                    lemma_table_at(old_entries, i);
                }
            }
            assert(after =~= before.insert(kid@, key@));
        }
        KeyTable { entries }
    }

    /// How many keys there are.
    pub fn len(&self) -> (r: usize)
        ensures
            r == self@.dom().len(),
            self@.dom().finite(),
    {
        proof {
            use_type_invariant(self);
            let kids = self.entries@.map_values(|entry: KeyEntry| entry.kid@);
            assert(kids.no_duplicates()) by {
                assert forall|i: int, j: int|
                    0 <= i < kids.len() && 0 <= j < kids.len() && i != j implies kids[i]
                    != kids[j] by {
                    assert(kids[i] == self.entries@[i].kid@);
                    assert(kids[j] == self.entries@[j].kid@);
                }
            }
            kids.unique_seq_to_set();
            assert(self@.dom() =~= kids.to_set()) by {
                assert forall|k: Seq<char>| self@.dom().contains(k) == kids.to_set().contains(k) by {
                    if self@.dom().contains(k) {
                        let i = choose|i: int| entry_for(self.entries@, k, i);
                        assert(kids[i] == k);
                    }
                    if kids.contains(k) {
                        let i = choose|i: int| 0 <= i < kids.len() && kids[i] == k;
                        assert(entry_for(self.entries@, k, i));
                    }
                }
            }
        }
        self.entries.len()
    }

    /// The table with the published key `jwk`, if it is an RSA key and `readable`. Any other
    /// key is passed over.
    pub fn with_jwk(self, jwk: &Jwk, readable: bool) -> (r: Self)
        ensures
            r@ == table_with(self@, jwk@, readable),
    {
        if readable && same_text(jwk.kty.as_str(), "RSA") {
            self.insert(jwk.kid.clone(), RsaKey { n: jwk.n.clone(), e: jwk.e.clone() })
        } else {
            self
        }
    }
}

/// The keys in `table`, and `jwk` if it is an RSA key and `readable`.
pub open spec fn table_with(
    table: Map<Seq<char>, RsaKeyView>,
    jwk: JwkView,
    readable: bool,
) -> Map<Seq<char>, RsaKeyView> {
    if readable && jwk.kty == "RSA"@ {
        table.insert(jwk.kid, RsaKeyView { n: jwk.n, e: jwk.e })
    } else {
        table
    }
}

/// The keys of a published set that are kept: its RSA keys whose components can be read. Of
/// two keys with one identifier the later is kept.
pub open spec fn kept_keys(jwks: Seq<JwkView>) -> Map<Seq<char>, RsaKeyView>
    decreases jwks.len(),
{
    if jwks.len() == 0 {
        Map::empty()
    } else {
        let jwk = jwks.last();
        table_with(
            kept_keys(jwks.drop_last()),
            jwk,
            crate::jwt::rsa_components_readable(jwk.n, jwk.e),
        )
    }
}

/// The keys of the published set `jwks` that are kept.
pub fn keep_keys(jwks: &JwkSet) -> (r: KeyTable)
    ensures
        r@ == kept_keys(jwks@),
{
    let mut table = KeyTable::new();
    let mut i: usize = 0;
    while i < jwks.keys.len()
        invariant
            i <= jwks.keys@.len(),
            table@ == kept_keys(jwks@.take(i as int)),
        decreases jwks.keys@.len() - i,
    {
        let jwk = &jwks.keys[i];
        let readable = rsa_components_ok(jwk.n.as_str(), jwk.e.as_str());
        assert(jwks@.take(i + 1).drop_last() == jwks@.take(i as int));
        assert(jwks@.take(i + 1).last() == jwk@);
        table = table.with_jwk(jwk, readable);
        i = i + 1;
    }
    assert(jwks@.take(i as int) == jwks@);
    table
}

/// Every key that is kept was published under its identifier, as an RSA key that can be read.
pub proof fn law_kept_keys_were_published(jwks: Seq<JwkView>, kid: Seq<char>)
    requires
        kept_keys(jwks).contains_key(kid),
    ensures
        exists|i: int|
            #![trigger jwks[i]]
            0 <= i < jwks.len() && jwks[i].kid == kid && jwks[i].kty == "RSA"@ && kept_keys(
                jwks,
            )[kid] == (RsaKeyView { n: jwks[i].n, e: jwks[i].e }),
        crate::jwt::rsa_components_readable(kept_keys(jwks)[kid].n, kept_keys(jwks)[kid].e),
    decreases jwks.len(),
{
    let last = jwks.last();
    let rest = jwks.drop_last();
    let readable = crate::jwt::rsa_components_readable(last.n, last.e);
    if readable && last.kty == "RSA"@ && last.kid == kid {
        assert(jwks[jwks.len() - 1] == last);
    } else {
        law_kept_keys_were_published(rest, kid);
        let i = choose|i: int|
            #![trigger rest[i]]
            0 <= i < rest.len() && rest[i].kid == kid && rest[i].kty == "RSA"@ && kept_keys(
                rest,
            )[kid] == (RsaKeyView { n: rest[i].n, e: rest[i].e });
        assert(jwks[i] == rest[i]);
    }
}

/// Every RSA key that can be read is kept, unless a later one of this kind has its identifier:
/// keys that are passed over displace none.
pub proof fn law_readable_rsa_keys_are_kept(jwks: Seq<JwkView>, i: int)
    requires
        0 <= i < jwks.len(),
        jwks[i].kty == "RSA"@,
        crate::jwt::rsa_components_readable(jwks[i].n, jwks[i].e),
        forall|j: int|
            i < j < jwks.len() ==> (#[trigger] jwks[j]).kid != jwks[i].kid || jwks[j].kty
                != "RSA"@ || !crate::jwt::rsa_components_readable(jwks[j].n, jwks[j].e),
    ensures
        kept_keys(jwks).contains_key(jwks[i].kid),
        kept_keys(jwks)[jwks[i].kid] == (RsaKeyView { n: jwks[i].n, e: jwks[i].e }),
    decreases jwks.len(),
{
    if i < jwks.len() - 1 {
        let rest = jwks.drop_last();
        assert(rest[i] == jwks[i]);
        assert(jwks[jwks.len() - 1] == jwks.last());
        law_readable_rsa_keys_are_kept(rest, i);
    }
}

/// The value of a published set shows every key with its identifier, type and components.
pub proof fn law_published_keys_show_every_field(jwks: JwkSet, i: int)
    requires
        0 <= i < jwks.keys@.len(),
    ensures
        jwks@.len() == jwks.keys@.len(),
        jwks@[i].kid == jwks.keys@[i].kid@,
        jwks@[i].kty == jwks.keys@[i].kty@,
        jwks@[i].n == jwks.keys@[i].n@,
        jwks@[i].e == jwks.keys@[i].e@,
{
}

/// The value of a key shows both components.
pub proof fn law_keys_show_their_components(key: RsaKey)
    ensures
        key@.n == key.n@,
        key@.e == key.e@,
{
}

/// A published key that can be read and is an RSA key takes the place of its identifier; any
/// other leaves the table as it is.
pub proof fn law_only_readable_rsa_keys_enter(
    table: Map<Seq<char>, RsaKeyView>,
    jwk: JwkView,
    readable: bool,
)
    ensures
        !readable ==> table_with(table, jwk, readable) == table,
        jwk.kty != "RSA"@ ==> table_with(table, jwk, readable) == table,
        readable && jwk.kty == "RSA"@ ==> {
            let after = table_with(table, jwk, readable);
            &&& after.contains_key(jwk.kid)
            &&& after[jwk.kid].n == jwk.n
            &&& after[jwk.kid].e == jwk.e
            &&& forall|kid: Seq<char>| kid != jwk.kid ==> after.contains_key(kid)
                == #[trigger] table.contains_key(kid)
            &&& forall|kid: Seq<char>| kid != jwk.kid && table.contains_key(kid) ==> after[kid]
                == #[trigger] table[kid]
        },
{
}

} // verus!
