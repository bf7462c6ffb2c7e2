//! Which provider keys exist and where they come from: the environment variable a provider
//! declares, the credential store, and the persisted preferences layered over an environment
//! selection.

use vstd::prelude::*;

use crate::credentials::{CredentialStore, StoreError};
use crate::settings::Settings;
use crate::strmap::StrMap;
use crate::text::{chars_of, str_eq, string_of};

verus! {

/// The environment variable that holds `provider`'s API key, for the remote providers that take
/// one; `None` for every other provider (Ollama and the offline provider take no key).
pub open spec fn key_var(provider: Seq<char>) -> Option<Seq<char>> {
    if provider == "anthropic"@ {
        Some("ANTHROPIC_API_KEY"@)
    } else if provider == "openai"@ {
        Some("OPENAI_API_KEY"@)
    } else if provider == "gemini"@ {
        Some("GEMINI_API_KEY"@)
    } else if provider == "deepseek"@ {
        Some("DEEPSEEK_API_KEY"@)
    } else {
        None
    }
}

/// Whether `provider` takes an API key.
pub open spec fn keyed(provider: Seq<char>) -> bool {
    key_var(provider) is Some
}

/// The environment variable that holds `provider`'s API key, if it takes one.
pub fn env_key_var(provider: &str) -> (r: Option<&'static str>)
    ensures
        match r {
            Some(var) => key_var(provider@) == Some(var@),
            None => key_var(provider@) is None,
        },
{
    if str_eq(provider, "anthropic") {
        Some("ANTHROPIC_API_KEY")
    } else if str_eq(provider, "openai") {
        Some("OPENAI_API_KEY")
    } else if str_eq(provider, "gemini") {
        Some("GEMINI_API_KEY")
    } else if str_eq(provider, "deepseek") {
        Some("DEEPSEEK_API_KEY")
    } else {
        None
    }
}

/// Whether `provider` takes an API key (and so can be the target of `/key`).
pub fn takes_key(provider: &str) -> (r: bool)
    ensures
        r == keyed(provider@),
{
    env_key_var(provider).is_some()
}

/// The remote provider ids, in key-precedence order.
pub open spec fn remote_id_list() -> Seq<Seq<char>> {
    seq!["anthropic"@, "openai"@, "gemini"@, "deepseek"@]
}

/// The remote provider ids, in key-precedence order.
pub fn remote_ids() -> (r: Vec<&'static str>)
    ensures
        r@.map_values(|s: &str| s@) == remote_id_list(),
{
    let r = vec!["anthropic", "openai", "gemini", "deepseek"];
    assert(r@.map_values(|s: &str| s@) =~= remote_id_list());
    r
}

/// Where a provider's key comes from, for the `/key` listing.
#[derive(Debug, Clone, Copy, PartialEq, Eq, Structural)]
pub enum KeyStatus {
    Env,
    Keyring,
    Absent,
}

/// The view of an optional string.
pub open spec fn opt_v(o: Option<String>) -> Option<Seq<char>> {
    match o {
        Some(s) => Some(s@),
        None => None,
    }
}

/// Where a key comes from: a non-empty environment value wins, then the keyring.
pub open spec fn key_source(env_key: Option<Seq<char>>, keyring_key: Option<Seq<char>>) -> KeyStatus {
    if env_key is Some && env_key->0.len() > 0 {
        KeyStatus::Env
    } else if keyring_key is Some {
        KeyStatus::Keyring
    } else {
        KeyStatus::Absent
    }
}

/// The key to use: a non-empty environment value wins over the keyring; an empty one counts as
/// absent.
pub open spec fn chosen_key(env_key: Option<Seq<char>>, keyring_key: Option<Seq<char>>) -> Option<
    Seq<char>,
> {
    if env_key is Some && env_key->0.len() > 0 {
        env_key
    } else {
        keyring_key
    }
}

/// Whether a string is empty.
fn is_empty_str(s: &String) -> (r: bool)
    ensures
        r == (s@.len() == 0),
{
    chars_of(s.as_str()).len() == 0
}

/// Classify a provider's key source without revealing the value.
pub fn classify(env_key: Option<String>, keyring_key: Option<String>) -> (r: KeyStatus)
    ensures
        r == key_source(opt_v(env_key), opt_v(keyring_key)),
{
    let env_set = match &env_key {
        Some(k) => !is_empty_str(k),
        None => false,
    };
    if env_set {
        KeyStatus::Env
    } else if keyring_key.is_some() {
        KeyStatus::Keyring
    } else {
        KeyStatus::Absent
    }
}

/// Resolve a provider's API key: the environment wins over the keyring, and an empty
/// environment value is treated as absent, so no fetch is ever made with an empty key.
pub fn resolve_key_from(env_key: Option<String>, keyring_key: Option<String>) -> (r: Option<String>)
    ensures
        opt_v(r) == chosen_key(opt_v(env_key), opt_v(keyring_key)),
{
    let env_set = match &env_key {
        Some(k) => !is_empty_str(k),
        None => false,
    };
    if env_set {
        env_key
    } else {
        keyring_key
    }
}

/// The keyring's answer as a key: a failure reads as no key.
pub open spec fn found_key(found: Result<Option<String>, StoreError>) -> Option<String> {
    match found {
        Ok(k) => k,
        Err(_) => None,
    }
}

/// The keyring's answer as a key: a failure reads as no key.
pub fn keyring_key(found: Result<Option<String>, StoreError>) -> (r: Option<String>)
    ensures
        r == found_key(found),
{
    match found {
        Ok(k) => k,
        Err(_) => None,
    }
}

/// Whether `env` answered `value` for the variable that holds `provider`'s key; a provider
/// without one never consults the environment.
pub open spec fn env_answer<F: Fn(&str) -> Option<String>>(
    provider: Seq<char>,
    env: F,
    value: Option<String>,
) -> bool {
    match key_var(provider) {
        Some(var) => exists|v: &str| v@ == var && call_ensures(env, (v,), value),
        None => value is None,
    }
}

/// Whether `value` is the key that asking the store `before` for `provider`'s key may give,
/// leaving it as `after`; a failed read counts as no key.
pub open spec fn store_answer<S: CredentialStore>(
    before: S,
    after: S,
    provider: Seq<char>,
    value: Option<String>,
) -> bool {
    exists|found: Result<Option<String>, StoreError>|
        #[trigger] before.read_gives(after, provider, found) && value == found_key(found)
}

/// The environment key and the keyring key for a provider, resolved independently. `env`
/// supplies the value of a named environment variable.
pub fn sources_with<S: CredentialStore, F: Fn(&str) -> Option<String>>(
    provider: &str,
    store: &mut S,
    env: F,
) -> (r: (Option<String>, Option<String>))
    requires
        forall|v: &str| env.requires((v,)),
    ensures
        env_answer(provider@, env, r.0),
        store_answer(*old(store), *final(store), provider@, r.1),
{
    let env_key = match env_key_var(provider) {
        Some(var) => env(var),
        None => None,
    };
    let found = store.get(provider);
    let keyring = keyring_key(found);
    (env_key, keyring)
}

/// Whether `status` classifies `provider`'s key for some answer of `env` and an answer of the
/// store `before` to a read of that provider's key that leaves it as `after`.
pub open spec fn status_possible<S: CredentialStore, F: Fn(&str) -> Option<String>>(
    before: S,
    after: S,
    provider: Seq<char>,
    env: F,
    status: KeyStatus,
) -> bool {
    exists|env_key: Option<String>, keyring: Option<String>|
        #![trigger env_answer(provider, env, env_key), store_answer(before, after, provider, keyring)]
        env_answer(provider, env, env_key) && store_answer(before, after, provider, keyring)
            && status == key_source(opt_v(env_key), opt_v(keyring))
}

/// Whether `stores` runs from `before` to `after` through one state per remote provider read.
pub open spec fn store_run<S>(stores: Seq<S>, before: S, after: S) -> bool {
    &&& stores.len() == 5
    &&& stores[0] == before
    &&& stores[4] == after
}

/// Whether `statuses` classify the four remote providers' keys, in key-precedence order, for
/// some answers of `env` and the answers of the store to reading each provider in turn, from
/// `before` to `after`.
pub open spec fn statuses_possible<S: CredentialStore, F: Fn(&str) -> Option<String>>(
    before: S,
    after: S,
    env: F,
    statuses: Seq<KeyStatus>,
) -> bool {
    &&& statuses.len() == 4
    &&& exists|stores: Seq<S>|
        #[trigger] store_run(stores, before, after) && forall|i: int|
            0 <= i < 4 ==> status_possible(
                stores[i],
                stores[i + 1],
                remote_id_list()[i],
                env,
                #[trigger] statuses[i],
            )
}

/// Classify where `provider`'s key comes from, reading the environment through `env` and the
/// credential store for that provider.
pub fn key_status<S: CredentialStore, F: Fn(&str) -> Option<String>>(
    provider: &str,
    store: &mut S,
    env: F,
) -> (r: KeyStatus)
    requires
        forall|v: &str| env.requires((v,)),
    ensures
        status_possible(*old(store), *final(store), provider@, env, r),
        key_var(provider@) is None ==> r != KeyStatus::Env,
{
    let (env_key, keyring) = sources_with(provider, store, env);
    classify(env_key, keyring)
}

/// Whether `key` is the key resolved for `provider` from some answer of `env` and an answer of
/// the store `before` to a read of that provider's key that leaves it as `after`.
pub open spec fn key_possible<S: CredentialStore, F: Fn(&str) -> Option<String>>(
    before: S,
    after: S,
    provider: Seq<char>,
    env: F,
    key: Option<Seq<char>>,
) -> bool {
    exists|env_key: Option<String>, keyring: Option<String>|
        #![trigger env_answer(provider, env, env_key), store_answer(before, after, provider, keyring)]
        env_answer(provider, env, env_key) && store_answer(before, after, provider, keyring)
            && key == chosen_key(opt_v(env_key), opt_v(keyring))
}

/// The resolved API key for a provider against an explicit environment.
pub fn resolve_key_with<S: CredentialStore, F: Fn(&str) -> Option<String>>(
    provider: &str,
    store: &mut S,
    env: F,
) -> (r: Option<String>)
    requires
        forall|v: &str| env.requires((v,)),
    ensures
        key_possible(*old(store), *final(store), provider@, env, opt_v(r)),
{
    let (env_key, keyring) = sources_with(provider, store, env);
    resolve_key_from(env_key, keyring)
}

/// The resolved API key for a provider (environment over keyring), or `None` when no key is
/// available.
pub fn resolve_key<S: CredentialStore, F: Fn(&str) -> Option<String>>(
    provider: &str,
    store: &mut S,
    env: F,
) -> (r: Option<String>)
    requires
        forall|v: &str| env.requires((v,)),
    ensures
        key_possible(*old(store), *final(store), provider@, env, opt_v(r)),
{
    resolve_key_with(provider, store, env)
}

/// The inputs to provider construction: the keys found, the preferred provider, and the
/// per-provider model overrides.
pub struct Selection {
    pub keys: StrMap,
    pub preferred: Option<String>,
    pub models: StrMap,
}

impl Selection {
    /// Nothing found, nothing preferred.
    pub fn empty() -> (r: Selection)
        ensures
            r.keys@ == Map::<Seq<char>, Seq<char>>::empty(),
            r.preferred is None,
            r.models@ == Map::<Seq<char>, Seq<char>>::empty(),
    {
        Selection { keys: StrMap::new(), preferred: None, models: StrMap::new() }
    }
}

/// `keys` with the keyring's keys layered in: the remote provider at position `i < n` (in
/// key-precedence order) that has no key in `keys` takes `found[i]` when that is a key.
pub open spec fn layered(keys: Map<Seq<char>, Seq<char>>, found: Seq<Option<Seq<char>>>, n: nat) -> Map<
    Seq<char>,
    Seq<char>,
>
    decreases n,
{
    if n == 0 {
        keys
    } else {
        let m = layered(keys, found, (n - 1) as nat);
        let id = remote_id_list()[n - 1];
        if !keys.contains_key(id) && found[n - 1] is Some {
            m.insert(id, found[n - 1]->0)
        } else {
            m
        }
    }
}

/// The remote provider ids are distinct.
proof fn lemma_remote_ids_distinct()
    ensures
        forall|i: int, j: int|
            0 <= i < 4 && 0 <= j < 4 && i != j ==> #[trigger] remote_id_list()[i]
                != #[trigger] remote_id_list()[j],
{
    reveal_strlit("anthropic");
    reveal_strlit("openai");
    reveal_strlit("gemini");
    reveal_strlit("deepseek");
    assert("anthropic"@[0] != "openai"@[0]);
    assert("anthropic"@[0] != "gemini"@[0]);
    assert("anthropic"@[0] != "deepseek"@[0]);
    assert("openai"@[0] != "gemini"@[0]);
    assert("openai"@[0] != "deepseek"@[0]);
    assert("gemini"@[0] != "deepseek"@[0]);
}

/// The views of optional strings.
pub open spec fn opt_vs(found: Seq<Option<String>>) -> Seq<Option<Seq<char>>> {
    found.map_values(|o: Option<String>| opt_v(o))
}

/// Layer the keyring's answers over `keys`: `found[i]` is what the keyring holds for the
/// remote provider at position `i`; a provider that already has a key keeps it, and nothing
/// but a remote provider's key is added.
pub fn layer_keys(keys: StrMap, found: &Vec<Option<String>>) -> (r: StrMap)
    requires
        found@.len() == 4,
    ensures
        r@ == layered(keys@, opt_vs(found@), 4),
{
    let mut keys = keys;
    let ghost start = keys@;
    let ids = remote_ids();
    let mut i: usize = 0;
    assert(ids@.map_values(|s: &str| s@).len() == 4);
    while i < 4
        invariant
            i <= 4,
            found@.len() == 4,
            ids@.len() == 4,
            ids@.map_values(|s: &str| s@) == remote_id_list(),
            keys@ == layered(start, opt_vs(found@), i as nat),
            forall|j: int| i <= j < 4 ==> (keys@.contains_key(#[trigger] remote_id_list()[j])
                <==> start.contains_key(remote_id_list()[j])),
        decreases 4 - i,
    {
        let id = ids[i];
        assert(ids@.map_values(|s: &str| s@)[i as int] == id@);
        proof {
            lemma_remote_ids_distinct();
        }
        let present = keys.contains_key(id);
        match &found[i] {
            Some(key) => {
                if !present {
                    keys.insert(string_of(&chars_of(id)), key.clone());
                }
            },
            None => {},
        }
        i = i + 1;
    }
    keys
}

/// Whether reading the remote providers in key-precedence order takes the store from
/// `stores[i]` to `stores[i + 1]` and finds `found[i]`, where a provider that `keys` already
/// holds is not read at all (nothing found, the store unchanged).
pub open spec fn read_step<S: CredentialStore>(
    stores: Seq<S>,
    keys: Map<Seq<char>, Seq<char>>,
    found: Seq<Option<String>>,
    i: int,
) -> bool {
    if keys.contains_key(remote_id_list()[i]) {
        found[i] is None && stores[i + 1] == stores[i]
    } else {
        store_answer(stores[i], stores[i + 1], remote_id_list()[i], found[i])
    }
}

/// Whether `found` holds what reading the providers `keys` lacks took from the store, from
/// `before` to `after` (see [`read_step`]).
pub open spec fn keys_read<S: CredentialStore>(
    before: S,
    after: S,
    keys: Map<Seq<char>, Seq<char>>,
    found: Seq<Option<String>>,
) -> bool {
    &&& found.len() == 4
    &&& exists|stores: Seq<S>|
        #[trigger] store_run(stores, before, after) && forall|i: int|
            0 <= i < 4 ==> #[trigger] read_step(stores, keys, found, i)
}

/// Layer the persisted preferences and keyring keys over an environment-derived selection: a
/// remote provider without a key takes the keyring's (an environment key is never overwritten),
/// the preferred provider is the saved one, and a saved model fills only a provider the
/// environment did not already pin.
pub fn apply_preferences<S: CredentialStore>(base: Selection, settings: &Settings, store: &mut S) -> (r:
    Selection)
    ensures
        opt_v(r.preferred) == opt_v(settings.provider),
        r.models@ == settings.models@.union_prefer_right(base.models@),
        exists|found: Seq<Option<String>>|
            #[trigger] keys_read(*old(store), *final(store), base.keys@, found) && r.keys@ == layered(
                base.keys@,
                opt_vs(found),
                4,
            ),
{
    let ids = remote_ids();
    let mut found: Vec<Option<String>> = Vec::new();
    let mut i: usize = 0;
    let ghost mut stores: Seq<S> = seq![*store];
    let ghost start = *store;
    assert(ids@.map_values(|s: &str| s@).len() == 4);
    while i < 4
        invariant
            i <= 4,
            found@.len() == i,
            ids@.len() == 4,
            ids@.map_values(|s: &str| s@) == remote_id_list(),
            stores.len() == i + 1,
            stores[0] == start,
            stores[i as int] == *store,
            forall|j: int| 0 <= j < i ==> #[trigger] read_step(stores, base.keys@, found@, j),
        decreases 4 - i,
    {
        let id = ids[i];
        assert(ids@.map_values(|s: &str| s@)[i as int] == id@);
        let ghost prev = stores;
        let ghost prev_found = found@;
        let ghost pre = *store;
        if base.keys.contains_key(id) {
            found.push(None);
        } else {
            let answer = store.get(id);
            let key = keyring_key(answer);
            assert(store_answer(pre, *store, id@, key));
            found.push(key);
        }
        proof {
            stores = stores.push(*store);
            assert forall|j: int| 0 <= j < i + 1 implies #[trigger] read_step(stores, base.keys@, found@, j) by {
                if j < i {
                    assert(read_step(prev, base.keys@, prev_found, j));
                    assert(stores[j] == prev[j] && stores[j + 1] == prev[j + 1]);
                    assert(found@[j] == prev_found[j]);
                }
            }
        }
        i = i + 1;
    }
    assert(store_run(stores, start, *store));
    assert(keys_read(start, *store, base.keys@, found@));
    let mut base = base;
    base.keys = layer_keys(base.keys, &found);
    base.preferred = match &settings.provider {
        Some(p) => Some(p.clone()),
        None => None,
    };
    base.models.fill_missing_from(&settings.models);
    base
}

} // verus!
