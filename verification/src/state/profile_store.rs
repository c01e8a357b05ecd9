//! Guardian profiles: the membership id a Steam id maps to, the profile a new
//! player gets, and the list of stored profiles.
use vstd::prelude::*;
use crate::error::{Result, SunriseError};
use crate::state::account::{AccountState, CharacterClass, CharacterState};
use crate::state::starter_loadout::{starter_items, StarterLoadoutFactory};
use crate::text::{dec_digits, hex_padded, push_decimal, push_hex, string_push_str};

verus! {

/// "SUNRSUNR": the namespace mixed into every Steam id before hashing.
pub const STEAM_ID_NAMESPACE: u64 = 0x53555253_53554E52;

/// The membership id of a Steam id: a splitmix64 mix of the id offset by the
/// namespace, so the same Steam id always maps to the same membership id.
pub open spec fn membership_hash(steam_id: u64) -> u64 {
    let z0 = vstd::wrapping::u64_specs::wrapping_add(steam_id, 0x53555253_53554E52u64);
    let z1 = vstd::wrapping::u64_specs::wrapping_mul(z0 ^ (z0 >> 30u64), 0xBF58476D1CE4E5B9u64);
    let z2 = vstd::wrapping::u64_specs::wrapping_mul(z1 ^ (z1 >> 27u64), 0x94D049BB133111EBu64);
    z2 ^ (z2 >> 31u64)
}

proof fn lemma_xorshift_injective(x: u64, y: u64)
    ensures
        x ^ (x >> 30u64) == y ^ (y >> 30u64) ==> x == y,
        x ^ (x >> 27u64) == y ^ (y >> 27u64) ==> x == y,
        x ^ (x >> 31u64) == y ^ (y >> 31u64) ==> x == y,
{
    assert(x ^ (x >> 30u64) == y ^ (y >> 30u64) ==> x == y) by (bit_vector);
    assert(x ^ (x >> 27u64) == y ^ (y >> 27u64) ==> x == y) by (bit_vector);
    assert(x ^ (x >> 31u64) == y ^ (y >> 31u64) ==> x == y) by (bit_vector);
}

/// Multiplying by `c` modulo 2^64 is undone by multiplying by `c_inv`, its
/// inverse modulo 2^64.
proof fn lemma_mul_undone(x: u64, c: u64, c_inv: u64, k: int)
    requires
        c * c_inv == 1 + k * 0x1_0000_0000_0000_0000int,
    ensures
        vstd::wrapping::u64_specs::wrapping_mul(vstd::wrapping::u64_specs::wrapping_mul(x, c), c_inv) == x,
{
    let m: int = 0x1_0000_0000_0000_0000int;
    let xc: int = x * c;
    vstd::arithmetic::div_mod::lemma_mul_mod_noop_left(xc, c_inv as int, m);
    assert(xc * c_inv == m * (x * k) + x) by (nonlinear_arith)
        requires
            xc == x * c,
            c * c_inv == 1 + k * m,
    ;
    vstd::arithmetic::div_mod::lemma_mod_multiples_vanish(x * k, x as int, m);
    vstd::arithmetic::div_mod::lemma_small_mod(x as nat, m as nat);
}

/// Distinct Steam ids map to distinct membership ids: each step of the mix
/// can be undone.
pub proof fn lemma_membership_hash_injective(a: u64, b: u64)
    ensures
        membership_hash(a) == membership_hash(b) ==> a == b,
{
    let ns = 0x53555253_53554E52u64;
    let za = vstd::wrapping::u64_specs::wrapping_add(a, ns);
    let zb = vstd::wrapping::u64_specs::wrapping_add(b, ns);
    let c1 = 0xBF58476D1CE4E5B9u64;
    let c2 = 0x94D049BB133111EBu64;
    let a1 = vstd::wrapping::u64_specs::wrapping_mul(za ^ (za >> 30u64), c1);
    let b1 = vstd::wrapping::u64_specs::wrapping_mul(zb ^ (zb >> 30u64), c1);
    let a2 = vstd::wrapping::u64_specs::wrapping_mul(a1 ^ (a1 >> 27u64), c2);
    let b2 = vstd::wrapping::u64_specs::wrapping_mul(b1 ^ (b1 >> 27u64), c2);
    lemma_xorshift_injective(a2, b2);
    lemma_xorshift_injective(a1, b1);
    lemma_xorshift_injective(za, zb);
    assert(c1 * 0x96de1b173f119089u64 == 1 + 8125545580553827436int * 0x1_0000_0000_0000_0000int);
    assert(c2 * 0x319642b2d24d8ec3u64 == 1 + 2077064247507883091int * 0x1_0000_0000_0000_0000int);
    lemma_mul_undone(a1 ^ (a1 >> 27u64), c2, 0x319642b2d24d8ec3u64, 2077064247507883091int);
    lemma_mul_undone(b1 ^ (b1 >> 27u64), c2, 0x319642b2d24d8ec3u64, 2077064247507883091int);
    lemma_mul_undone(za ^ (za >> 30u64), c1, 0x96de1b173f119089u64, 8125545580553827436int);
    lemma_mul_undone(zb ^ (zb >> 30u64), c1, 0x96de1b173f119089u64, 8125545580553827436int);
}

/// The display name of a Steam player: "Guardian-" and the low 16 bits of
/// the Steam id in lower-case hexadecimal.
pub open spec fn steam_display_name(steam_id: u64) -> Seq<char> {
    "Guardian-"@ + hex_padded((steam_id % 0x10000) as nat, 0, false)
}

/// A new profile holds a Titan, a Hunter and a Warlock with ids 1001, 1002
/// and 1003, each with the starter loadout of its class.
pub open spec fn is_new_profile(a: AccountState, membership_id: u64, name: Seq<char>) -> bool {
    &&& a.membership_id == membership_id
    &&& a.display_name@ == name
    &&& a.characters@.len() == 3
    &&& is_starter_character(a.characters@[0], 1001, CharacterClass::Titan)
    &&& is_starter_character(a.characters@[1], 1002, CharacterClass::Hunter)
    &&& is_starter_character(a.characters@[2], 1003, CharacterClass::Warlock)
}

pub open spec fn is_starter_character(c: CharacterState, id: u64, class: CharacterClass) -> bool {
    &&& c.character_id == id
    &&& c.class_type == class
    &&& c.inventory.items@ == starter_items(class)
    &&& c.light_level == 1050
}

/// The stored profiles with `account` saved: any profile with its membership
/// id is replaced, and it goes last.
pub open spec fn with_saved(accounts: Seq<AccountState>, account: AccountState) -> Seq<AccountState> {
    accounts.filter(other_account(account.membership_id)).push(account)
}

/// Holds of every profile whose membership id is not `m`.
pub open spec fn other_account(m: u64) -> spec_fn(AccountState) -> bool {
    |a: AccountState| a.membership_id != m
}

/// `accounts[i]` is the first profile with `membership_id`.
pub open spec fn first_account_at(accounts: Seq<AccountState>, membership_id: u64, i: int) -> bool {
    &&& 0 <= i < accounts.len()
    &&& accounts[i].membership_id == membership_id
    &&& forall|j: int| 0 <= j < i ==> #[trigger] accounts[j].membership_id != membership_id
}

/// The profile a lookup of `m` finds among the stored profiles: the first
/// with that membership id, if any.
pub open spec fn stored_account(accounts: Seq<AccountState>, m: u64) -> Option<AccountState>
    decreases accounts.len(),
{
    if accounts.len() == 0 {
        None
    } else {
        match stored_account(accounts.drop_last(), m) {
            Some(a) => Some(a),
            None => if accounts.last().membership_id == m {
                Some(accounts.last())
            } else {
                None
            },
        }
    }
}

proof fn lemma_stored_none(v: Seq<AccountState>, m: u64)
    requires
        forall|j: int| 0 <= j < v.len() ==> #[trigger] v[j].membership_id != m,
    ensures
        stored_account(v, m) is None,
    decreases v.len(),
{
    if v.len() > 0 {
        assert forall|j: int| 0 <= j < v.drop_last().len() implies #[trigger] v.drop_last()[j].membership_id != m by {
            assert(v.drop_last()[j] == v[j]);
        }
        lemma_stored_none(v.drop_last(), m);
        assert(v.last() == v[v.len() - 1]);
    }
}

proof fn lemma_stored_first(v: Seq<AccountState>, m: u64, i: int)
    requires
        first_account_at(v, m, i),
    ensures
        stored_account(v, m) == Some(v[i]),
    decreases v.len(),
{
    let u = v.drop_last();
    if i < v.len() - 1 {
        assert(first_account_at(u, m, i)) by {
            assert forall|j: int| 0 <= j < i implies #[trigger] u[j].membership_id != m by {
                assert(u[j] == v[j]);
            }
        }
        lemma_stored_first(u, m, i);
    } else {
        assert forall|j: int| 0 <= j < u.len() implies #[trigger] u[j].membership_id != m by {
            assert(u[j] == v[j]);
        }
        lemma_stored_none(u, m);
    }
}

proof fn lemma_stored_filtered(v: Seq<AccountState>, saved: u64, m: u64)
    requires
        m != saved,
    ensures
        stored_account(v.filter(other_account(saved)), m) == stored_account(v, m),
    decreases v.len(),
{
    if v.len() == 0 {
        assert(v.filter(other_account(saved)) =~= Seq::<AccountState>::empty());
    } else {
        let u = v.drop_last();
        let x = v.last();
        assert(v =~= u.push(x));
        u.lemma_filter_push(x, other_account(saved));
        lemma_stored_filtered(u, saved, m);
        if x.membership_id != saved {
            assert(v.filter(other_account(saved)).drop_last() =~= u.filter(other_account(saved)));
        }
    }
}

/// Saving a profile and then looking up its membership id gives back that
/// profile; looking up any other membership id gives what it gave before.
pub proof fn lemma_save_then_find(accounts: Seq<AccountState>, account: AccountState, m: u64)
    ensures
        m == account.membership_id ==> stored_account(with_saved(accounts, account), m) == Some(account),
        m != account.membership_id ==> stored_account(with_saved(accounts, account), m) == stored_account(
            accounts,
            m,
        ),
{
    let w = accounts.filter(other_account(account.membership_id));
    assert(with_saved(accounts, account).drop_last() =~= w);
    if m == account.membership_id {
        assert forall|j: int| 0 <= j < w.len() implies #[trigger] w[j].membership_id != m by {
            accounts.filter_lemma(other_account(account.membership_id));
            assert(other_account(account.membership_id)(w[j]));
        }
        lemma_stored_none(w, m);
    } else {
        lemma_stored_filtered(accounts, account.membership_id, m);
    }
}

proof fn lemma_stored_has_id(v: Seq<AccountState>, m: u64)
    ensures
        stored_account(v, m) matches Some(a) ==> a.membership_id == m,
    decreases v.len(),
{
    if v.len() > 0 {
        lemma_stored_has_id(v.drop_last(), m);
    }
}

/// A Steam player's profile persists from one signon to the next: the
/// profile the first signon gets (the stored one under the Steam id's
/// membership id, else a new one with the Steam display name), once saved
/// when it was new, is what a later signon with the same Steam id finds.
pub proof fn lemma_steam_profile_persists(accounts: Seq<AccountState>, steam_id: u64, first: AccountState)
    requires
        match stored_account(accounts, membership_hash(steam_id)) {
            Some(s) => first == s,
            None => is_new_profile(first, membership_hash(steam_id), steam_display_name(steam_id)),
        },
    ensures
        first.membership_id == membership_hash(steam_id),
        stored_account(accounts, membership_hash(steam_id)) is None ==> first.display_name@ == steam_display_name(
            steam_id,
        ),
        ({
            let saved = if stored_account(accounts, membership_hash(steam_id)) is None {
                with_saved(accounts, first)
            } else {
                accounts
            };
            stored_account(saved, membership_hash(steam_id)) == Some(first)
        }),
{
    let m = membership_hash(steam_id);
    lemma_stored_has_id(accounts, m);
    if stored_account(accounts, m) is None {
        lemma_save_then_find(accounts, first, m);
    }
}

/// Where profiles are kept.
#[derive(Clone)]
pub struct ProfileStore {
    storage_path: String,
}

impl ProfileStore {
    pub closed spec fn path(&self) -> Seq<char> {
        self.storage_path@
    }

    /// The store under /data when that directory exists, else under the
    /// user's configuration directory.
    pub fn default_store(data_dir_exists: bool, home_dir: &str) -> (s: Self)
        ensures
            data_dir_exists ==> s.path() == "/data/profiles.json"@,
            !data_dir_exists ==> s.path() == home_dir@ + "/.config/thanatonaut/profiles.json"@,
    {
        if data_dir_exists {
            ProfileStore { storage_path: "/data/profiles.json".to_owned() }
        } else {
            let mut p = home_dir.to_owned();
            string_push_str(&mut p, "/.config/thanatonaut/profiles.json");
            ProfileStore { storage_path: p }
        }
    }

    pub fn with_path(path: &str) -> (s: Self)
        ensures
            s.path() == path@,
    {
        ProfileStore { storage_path: path.to_owned() }
    }

    pub fn storage_path(&self) -> (p: &str)
        ensures
            p@ == self.path(),
    {
        self.storage_path.as_str()
    }

    pub fn hash_steam_id_to_membership(steam_id: u64) -> (m: u64)
        ensures
            m == membership_hash(steam_id),
    {
        let mut z = steam_id.wrapping_add(STEAM_ID_NAMESPACE);
        z = (z ^ (z >> 30)).wrapping_mul(0xBF58476D1CE4E5B9);
        z = (z ^ (z >> 27)).wrapping_mul(0x94D049BB133111EB);
        z ^ (z >> 31)
    }

    /// The display name given to a player known only by Steam id.
    pub fn steam_display_name(steam_id: u64) -> (name: String)
        ensures
            name@ == steam_display_name(steam_id),
    {
        let mut name = String::new();
        string_push_str(&mut name, "Guardian-");
        push_hex(&mut name, steam_id & 0xFFFF, 0, false);
        proof {
            assert(steam_id & 0xFFFF == steam_id % 0x10000) by (bit_vector);
        }
        name
    }

    /// A new profile: the three starter characters.
    pub fn new_profile(membership_id: u64, name: &str) -> (a: AccountState)
        ensures
            is_new_profile(a, membership_id, name@),
    {
        let mut account = AccountState::new(membership_id, name);
        account.add_character(StarterLoadoutFactory::create_default_character(1001, CharacterClass::Titan));
        account.add_character(StarterLoadoutFactory::create_default_character(1002, CharacterClass::Hunter));
        account.add_character(StarterLoadoutFactory::create_default_character(1003, CharacterClass::Warlock));
        account
    }

    /// The stored profile when there is one, else a new one, which the caller
    /// then saves.
    pub fn load_or_create_account(membership_id: u64, name: &str, stored: Option<AccountState>) -> (a:
        AccountState)
        ensures
            match stored {
                Some(s) => a == s,
                None => is_new_profile(a, membership_id, name@),
            },
    {
        match stored {
            Some(s) => s,
            None => Self::new_profile(membership_id, name),
        }
    }

    /// The profile of a Steam player: the one stored under the membership id
    /// its Steam id maps to, else a new one named after the Steam id.
    pub fn load_or_create_account_by_steam(steam_id: u64, stored: Option<AccountState>) -> (a: AccountState)
        ensures
            match stored {
                Some(s) => a == s,
                None => is_new_profile(a, membership_hash(steam_id), steam_display_name(steam_id)),
            },
    {
        match stored {
            Some(s) => s,
            None => {
                let membership_id = Self::hash_steam_id_to_membership(steam_id);
                let name = Self::steam_display_name(steam_id);
                Self::new_profile(membership_id, name.as_str())
            },
        }
    }

    /// The first stored profile with `membership_id`; when none has it, the
    /// error says "Account <id> not found".
    pub fn find_account(accounts: Vec<AccountState>, membership_id: u64) -> (r: Result<AccountState>)
        ensures
            match stored_account(accounts@, membership_id) {
                Some(a) => r matches Ok(x) && x == a,
                None => r matches Err(SunriseError::FileNotFound(msg)) && msg@ == "Account "@ + dec_digits(
                    membership_id as nat,
                ) + " not found"@,
            },
    {
        let mut list = accounts;
        let n = list.len();
        let mut i: usize = 0;
        while i < n
            invariant
                i <= n == accounts@.len(),
                list@ == accounts@,
                forall|j: int| 0 <= j < i ==> #[trigger] accounts@[j].membership_id != membership_id,
            decreases n - i,
        {
            if list[i].membership_id == membership_id {
                proof {
                    assert(first_account_at(accounts@, membership_id, i as int));
                    lemma_stored_first(accounts@, membership_id, i as int);
                }
                return Ok(list.remove(i));
            }
            i += 1;
        }
        proof {
            lemma_stored_none(accounts@, membership_id);
        }
        let mut msg = String::new();
        string_push_str(&mut msg, "Account ");
        push_decimal(&mut msg, membership_id);
        string_push_str(&mut msg, " not found");
        Err(SunriseError::FileNotFound(msg))
    }

    /// The stored profiles after saving `account`.
    pub fn merge_account(accounts: Vec<AccountState>, account: AccountState) -> (v: Vec<AccountState>)
        ensures
            v@ == with_saved(accounts@, account),
    {
        let mut kept: Vec<AccountState> = Vec::new();
        let mut rest = accounts;
        let ghost orig = rest@;
        let ghost m = account.membership_id;
        let n = rest.len();
        let mut i: usize = 0;
        while i < n
            invariant
                n == orig.len(),
                i <= n,
                rest@ == orig.subrange(i as int, n as int),
                kept@ == orig.subrange(0, i as int).filter(other_account(m)),
                m == account.membership_id,
            decreases n - i,
        {
            let a = rest.remove(0);
            proof {
                assert(orig.subrange(0, i + 1) =~= orig.subrange(0, i as int).push(a));
                orig.subrange(0, i as int).lemma_filter_push(a, other_account(m));
                assert(rest@ =~= orig.subrange(i + 1, n as int));
            }
            if a.membership_id != account.membership_id {
                kept.push(a);
            }
            i += 1;
        }
        proof {
            assert(orig.subrange(0, n as int) =~= orig);
        }
        kept.push(account);
        kept
    }
}

} // verus!
