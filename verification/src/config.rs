//! Backend configurations: the index of stored configuration ids, listing
//! order and paging, and building or updating a configuration.

use vstd::prelude::*;

use crate::jwt::json_string;
use crate::types::{BackendConfig, CreateBackendConfigInput, UpdateBackendConfigInput};

verus! {

broadcast use vstd::seq_lib::group_seq_properties;

// ───────────────────────── the id index ─────────────────────────

/// The characters of each string.
pub open spec fn strings_view(v: Seq<String>) -> Seq<Seq<char>> {
    v.map_values(|s: String| s@)
}

/// The index without `id`: every other entry, in order.
pub open spec fn index_without_spec(ids: Seq<Seq<char>>, id: Seq<char>) -> Seq<Seq<char>>
    decreases ids.len(),
{
    if ids.len() == 0 {
        ids
    } else {
        let r = index_without_spec(ids.drop_last(), id);
        if ids.last() == id {
            r
        } else {
            r.push(ids.last())
        }
    }
}

/// The index after removing a configuration: every entry equal to `id`
/// dropped, the others kept in order.
pub fn index_without(ids: Vec<String>, id: &str) -> (res: Vec<String>)
    ensures
        strings_view(res@) == index_without_spec(strings_view(ids@), id@),
{
    let ghost orig = ids@;
    let mut res: Vec<String> = Vec::new();
    assert(strings_view(orig.take(0)) =~= Seq::<Seq<char>>::empty());
    for s in it: ids
        invariant
            it.seq() == orig,
            strings_view(res@) == index_without_spec(
                strings_view(orig.take(it.index() as int)),
                id@,
            ),
    {
        let ghost i = it.index();
        assert(strings_view(orig.take(i + 1)).drop_last() =~= strings_view(orig.take(i)));
        assert(strings_view(orig.take(i + 1)).last() == s@);
        let keep = !crate::text::str_eq(s.as_str(), id);
        let ghost before = res@;
        if keep {
            res.push(s);
            assert(strings_view(res@) =~= strings_view(before).push(s@));
        }
    }
    assert(orig.take(orig.len() as int) =~= orig);
    res
}

/// The index after adding a configuration.
pub fn index_with(ids: Vec<String>, id: &str) -> (res: Vec<String>)
    ensures
        strings_view(res@) == strings_view(ids@).push(id@),
{
    let mut res = ids;
    res.push(id.to_owned());
    assert(strings_view(res@) =~= strings_view(ids@).push(id@));
    res
}

/// What `serde_json` reads from a JSON array of strings: the strings, or
/// `None` when the text is not one.
pub uninterp spec fn parse_json_string_list(text: Seq<char>) -> Option<Seq<Seq<char>>>;

/// The strings joined by `,`, each as a JSON string literal.
pub open spec fn json_strings_joined(xs: Seq<Seq<char>>) -> Seq<char>
    decreases xs.len(),
{
    if xs.len() == 0 {
        Seq::empty()
    } else if xs.len() == 1 {
        json_string(xs[0])
    } else {
        json_strings_joined(xs.drop_last()) + ","@ + json_string(xs.last())
    }
}

/// A JSON array of strings, as `serde_json` writes it compactly.
pub open spec fn json_string_array(xs: Seq<Seq<char>>) -> Seq<char> {
    "["@ + json_strings_joined(xs) + "]"@
}

/// `serde_json::from_str::<Vec<String>>`: the strings of a JSON array of
/// strings, or `None` for any other text. What it accepts (white space,
/// escapes) is the crate's JSON grammar and is only named here.
#[verifier::external_body]
fn string_list_from_json(text: &str) -> (res: Option<Vec<String>>)
    ensures
        match res {
            Some(v) => parse_json_string_list(text@) == Some(strings_view(v@)),
            None => parse_json_string_list(text@) is None,
        },
{
    serde_json::from_str::<Vec<String>>(text).ok()
}

/// `serde_json::to_string` of a list of strings: `[`, the elements as JSON
/// string literals separated by `,`, `]` (it cannot fail for strings), and
/// reading that text back gives the same strings.
#[verifier::external_body]
fn string_list_to_json(ids: &Vec<String>) -> (res: String)
    ensures
        res@ == json_string_array(strings_view(ids@)),
        parse_json_string_list(res@) == Some(strings_view(ids@)),
{
    serde_json::to_string(ids).expect("a list of strings always serializes")
}

/// The index read from its stored text: none stored, an empty text or a text
/// that is not a JSON array of strings all read as the empty index.
pub open spec fn load_index_spec(text: Option<Seq<char>>) -> Seq<Seq<char>> {
    match text {
        Some(t) => if t.len() == 0 {
            Seq::empty()
        } else {
            match parse_json_string_list(t) {
                Some(ids) => ids,
                None => Seq::empty(),
            }
        },
        None => Seq::empty(),
    }
}

/// Reads the index of configuration ids from its stored text.
pub fn load_index(text: Option<&str>) -> (res: Vec<String>)
    ensures
        strings_view(res@) == load_index_spec(crate::sigv4::opt_view(text)),
{
    match text {
        None => Vec::new(),
        Some(t) => {
            let v = crate::text::chars_of(t);
            if v.len() == 0 {
                return Vec::new();
            }
            match string_list_from_json(t) {
                Some(ids) => ids,
                None => {
                    let empty: Vec<String> = Vec::new();
                    assert(strings_view(empty@) =~= Seq::<Seq<char>>::empty());
                    empty
                },
            }
        },
    }
}

/// The stored text of the index of configuration ids.
pub fn save_index(ids: &Vec<String>) -> (res: String)
    ensures
        res@ == json_string_array(strings_view(ids@)),
        parse_json_string_list(res@) == Some(strings_view(ids@)),
{
    string_list_to_json(ids)
}

/// Reading back the saved index gives the same ids in the same order.
pub proof fn law_index_save_then_load(ids: Seq<Seq<char>>, saved: Seq<char>)
    requires
        saved == json_string_array(ids),
        parse_json_string_list(saved) == Some(ids),
    ensures
        load_index_spec(Some(saved)) == ids,
{
    reveal_strlit("[");
    reveal_strlit("]");
    assert(saved.len() >= 2);
}

/// After removing `id`, the index no longer holds it.
pub proof fn law_removed_id_is_gone(ids: Seq<Seq<char>>, id: Seq<char>)
    ensures
        !index_without_spec(ids, id).contains(id),
    decreases ids.len(),
{
    if ids.len() > 0 {
        law_removed_id_is_gone(ids.drop_last(), id);
        let r = index_without_spec(ids.drop_last(), id);
        if ids.last() != id {
            assert forall|k: int| 0 <= k < r.push(ids.last()).len() implies r.push(ids.last())[k]
                != id by {
                if k < r.len() {
                    assert(!r.contains(id));
                }
            }
        }
    }
}

/// Removing an id keeps every other entry, in order: removing from an index
/// without `id` changes nothing.
pub proof fn law_remove_absent_is_identity(ids: Seq<Seq<char>>, id: Seq<char>)
    requires
        !ids.contains(id),
    ensures
        index_without_spec(ids, id) == ids,
    decreases ids.len(),
{
    if ids.len() > 0 {
        assert(!ids.drop_last().contains(id)) by {
            if ids.drop_last().contains(id) {
                let k = choose|k: int| 0 <= k < ids.drop_last().len() && ids.drop_last()[k] == id;
                assert(ids[k] == id);
            }
        }
        law_remove_absent_is_identity(ids.drop_last(), id);
        assert(ids.last() != id);
        assert(ids.drop_last().push(ids.last()) =~= ids);
    }
}

/// Adding a new id and removing it again gives the index back.
pub proof fn law_add_then_remove(ids: Seq<Seq<char>>, id: Seq<char>)
    requires
        !ids.contains(id),
    ensures
        index_without_spec(ids.push(id), id) == ids,
{
    assert(ids.push(id).drop_last() =~= ids);
    law_remove_absent_is_identity(ids, id);
}

// ───────────────────────── listing ─────────────────────────

/// Index of the first configuration created before `t` (or the length).
pub open spec fn first_older(s: Seq<BackendConfig>, t: u64) -> nat
    decreases s.len(),
{
    if s.len() == 0 || s[0].created_at < t {
        0
    } else {
        1 + first_older(s.drop_first(), t)
    }
}

/// Listing order: newest first, configurations created at the same time in
/// their stored order (a stable sort by descending `created_at`).
pub open spec fn newest_first(s: Seq<BackendConfig>) -> Seq<BackendConfig>
    decreases s.len(),
{
    if s.len() == 0 {
        s
    } else {
        let r = newest_first(s.drop_last());
        r.insert(first_older(r, s.last().created_at) as int, s.last())
    }
}

/// Descending order of creation time.
pub open spec fn sorted_newest_first(s: Seq<BackendConfig>) -> bool {
    forall|i: int, j: int| 0 <= i < j < s.len() ==> s[i].created_at >= s[j].created_at
}

proof fn lemma_first_older_bounds(s: Seq<BackendConfig>, t: u64)
    requires
        sorted_newest_first(s),
    ensures
        first_older(s, t) <= s.len(),
        forall|i: int| 0 <= i < first_older(s, t) ==> s[i].created_at >= t,
        forall|i: int| first_older(s, t) <= i < s.len() ==> s[i].created_at < t,
    decreases s.len(),
{
    if s.len() > 0 && s[0].created_at >= t {
        let d = s.drop_first();
        assert(sorted_newest_first(d));
        lemma_first_older_bounds(d, t);
        assert forall|i: int| 0 <= i < first_older(s, t) implies s[i].created_at >= t by {
            if i > 0 {
                assert(s[i] == d[i - 1]);
            }
        }
        assert forall|i: int| first_older(s, t) <= i < s.len() implies s[i].created_at < t by {
            assert(s[i] == d[i - 1]);
        }
    } else if s.len() > 0 {
        assert forall|i: int| 0 <= i < s.len() implies s[i].created_at < t by {
            assert(s[0].created_at >= s[i].created_at || i == 0);
        }
    }
}

/// `newest_first` orders by creation time and keeps every configuration.
pub proof fn law_newest_first_sorted_permutation(s: Seq<BackendConfig>)
    ensures
        sorted_newest_first(newest_first(s)),
        newest_first(s).to_multiset() == s.to_multiset(),
    decreases s.len(),
{
    if s.len() > 0 {
        let r = newest_first(s.drop_last());
        law_newest_first_sorted_permutation(s.drop_last());
        let x = s.last();
        let p = first_older(r, x.created_at) as int;
        lemma_first_older_bounds(r, x.created_at);
        let n = r.insert(p, x);
        assert forall|i: int, j: int| 0 <= i < j < n.len() implies n[i].created_at
            >= n[j].created_at by {
            if j < p {
            } else if j == p {
            } else if i < p {
            } else if i == p {
            } else {
            }
        }
        vstd::seq_lib::to_multiset_insert(r, p, x);
        assert(s.drop_last().push(x) =~= s);
        vstd::seq_lib::to_multiset_build(s.drop_last(), x);
    }
}

/// Position at which a configuration created at `t` goes into `r`.
fn find_first_older(r: &Vec<BackendConfig>, t: u64) -> (p: usize)
    ensures
        p == first_older(r@, t),
        p <= r@.len(),
{
    let mut i: usize = 0;
    assert(r@.skip(0) =~= r@);
    while i < r.len() && r[i].created_at >= t
        invariant
            i <= r.len(),
            first_older(r@, t) == i + first_older(r@.skip(i as int), t),
        decreases r.len() - i,
    {
        assert(r@.skip(i as int).drop_first() =~= r@.skip(i + 1));
        i = i + 1;
    }
    i
}

/// Configurations in listing order: newest first, ties in stored order.
pub fn sort_newest_first(configs: Vec<BackendConfig>) -> (res: Vec<BackendConfig>)
    ensures
        res@ == newest_first(configs@),
        sorted_newest_first(res@),
        res@.to_multiset() == configs@.to_multiset(),
{
    let ghost orig = configs@;
    let mut res: Vec<BackendConfig> = Vec::new();
    for c in it: configs
        invariant
            it.seq() == orig,
            res@ == newest_first(orig.take(it.index() as int)),
    {
        let ghost i = it.index();
        assert(orig.take(i + 1).drop_last() =~= orig.take(i));
        let p = find_first_older(&res, c.created_at);
        res.insert(p, c);
    }
    assert(orig.take(orig.len() as int) =~= orig);
    proof {
        law_newest_first_sorted_permutation(orig);
    }
    res
}

/// The page of `items` starting at `offset`, at most `limit` long.
pub fn page_of_configs(items: Vec<BackendConfig>, offset: usize, limit: usize) -> (res: Vec<
    BackendConfig,
>)
    ensures
        offset <= items@.len() ==> res@ == items@.skip(offset as int).take(
            if limit <= items@.len() - offset {
                limit as int
            } else {
                items@.len() - offset
            },
        ),
        offset > items@.len() ==> res@.len() == 0,
        res@.len() <= limit,
{
    let mut items = items;
    if offset > items.len() {
        return Vec::new();
    }
    let ghost before = items@;
    let mut rest = items.split_off(offset);
    assert(rest@ =~= before.skip(offset as int));
    if limit < rest.len() {
        rest.truncate(limit);
    }
    assert(rest@ =~= before.skip(offset as int).take(
        if limit <= before.len() - offset {
            limit as int
        } else {
            before.len() - offset
        },
    ));
    rest
}

// ───────────────────────── building and updating ─────────────────────────

/// A new configuration from submitted fields, with its id and creation time.
pub fn config_from_input(input: CreateBackendConfigInput, id: String, now: u64) -> (res:
    BackendConfig)
    ensures
        res.id == id,
        res.created_at == now,
        res.name == input.name,
        res.backend_type == input.backend_type,
        res.endpoint == input.endpoint,
        res.region == input.region,
        res.bucket == input.bucket,
        res.access_key_id == input.access_key_id,
        res.secret_access_key == input.secret_access_key,
        res.force_path_style == input.force_path_style,
        res.username == input.username,
        res.password == input.password,
        res.redis_password == input.redis_password,
        res.db_index == input.db_index,
        res.oss_preview_rpc_url == input.oss_preview_rpc_url,
        res.oss_preview_cookie == input.oss_preview_cookie,
{
    BackendConfig {
        id,
        name: input.name,
        backend_type: input.backend_type,
        endpoint: input.endpoint,
        region: input.region,
        bucket: input.bucket,
        access_key_id: input.access_key_id,
        secret_access_key: input.secret_access_key,
        force_path_style: input.force_path_style,
        username: input.username,
        password: input.password,
        redis_password: input.redis_password,
        db_index: input.db_index,
        oss_preview_rpc_url: input.oss_preview_rpc_url,
        oss_preview_cookie: input.oss_preview_cookie,
        created_at: now,
    }
}

/// A new configuration from submitted fields, with a fresh random id,
/// created now.
pub fn create_config_record(input: CreateBackendConfigInput) -> (res: BackendConfig)
    ensures
        crate::ids::is_uuid_text(res.id@),
        res.name == input.name,
        res.backend_type == input.backend_type,
        res.endpoint == input.endpoint,
        res.region == input.region,
        res.bucket == input.bucket,
        res.access_key_id == input.access_key_id,
        res.secret_access_key == input.secret_access_key,
        res.force_path_style == input.force_path_style,
        res.username == input.username,
        res.password == input.password,
        res.redis_password == input.redis_password,
        res.db_index == input.db_index,
        res.oss_preview_rpc_url == input.oss_preview_rpc_url,
        res.oss_preview_cookie == input.oss_preview_cookie,
{
    let id = crate::ids::new_uuid();
    let now = crate::dates::now_secs();
    config_from_input(input, id, now)
}

/// The given value, or the current one when none is given.
pub open spec fn given_or<T>(given: Option<T>, current: T) -> T {
    match given {
        Some(v) => v,
        None => current,
    }
}

/// The given option if it is `Some`, else the current one.
pub open spec fn given_or_opt<T>(given: Option<T>, current: Option<T>) -> Option<T> {
    match given {
        Some(v) => Some(v),
        None => current,
    }
}

fn take_or<T>(given: Option<T>, current: T) -> (r: T)
    ensures
        r == given_or(given, current),
{
    match given {
        Some(v) => v,
        None => current,
    }
}

fn take_or_opt<T>(given: Option<T>, current: Option<T>) -> (r: Option<T>)
    ensures
        r == given_or_opt(given, current),
{
    match given {
        Some(v) => Some(v),
        None => current,
    }
}

/// A configuration with the submitted changes applied: each field given
/// replaces the stored one; the id and creation time never change.
pub open spec fn config_update_spec(existing: BackendConfig, input: UpdateBackendConfigInput) -> BackendConfig {
    BackendConfig {
        id: existing.id,
        name: given_or(input.name, existing.name),
        backend_type: given_or(input.backend_type, existing.backend_type),
        endpoint: given_or(input.endpoint, existing.endpoint),
        region: given_or(input.region, existing.region),
        bucket: given_or(input.bucket, existing.bucket),
        access_key_id: given_or(input.access_key_id, existing.access_key_id),
        secret_access_key: given_or(input.secret_access_key, existing.secret_access_key),
        force_path_style: given_or(input.force_path_style, existing.force_path_style),
        username: given_or_opt(input.username, existing.username),
        password: given_or_opt(input.password, existing.password),
        redis_password: given_or_opt(input.redis_password, existing.redis_password),
        db_index: given_or_opt(input.db_index, existing.db_index),
        oss_preview_rpc_url: given_or(input.oss_preview_rpc_url, existing.oss_preview_rpc_url),
        oss_preview_cookie: given_or(input.oss_preview_cookie, existing.oss_preview_cookie),
        created_at: existing.created_at,
    }
}

/// Every field a configuration update gives appears in the result, every
/// field it leaves out keeps its value, and the id and creation time stay.
pub proof fn law_config_update_applies_given(existing: BackendConfig, input: UpdateBackendConfigInput)
    ensures
        ({
            let r = config_update_spec(existing, input);
            &&& r.id == existing.id
            &&& r.created_at == existing.created_at
            &&& match input.name {
                Some(v) => r.name == v,
                None => r.name == existing.name,
            }
            &&& match input.backend_type {
                Some(v) => r.backend_type == v,
                None => r.backend_type == existing.backend_type,
            }
            &&& match input.endpoint {
                Some(v) => r.endpoint == v,
                None => r.endpoint == existing.endpoint,
            }
            &&& match input.region {
                Some(v) => r.region == v,
                None => r.region == existing.region,
            }
            &&& match input.bucket {
                Some(v) => r.bucket == v,
                None => r.bucket == existing.bucket,
            }
            &&& match input.access_key_id {
                Some(v) => r.access_key_id == v,
                None => r.access_key_id == existing.access_key_id,
            }
            &&& match input.secret_access_key {
                Some(v) => r.secret_access_key == v,
                None => r.secret_access_key == existing.secret_access_key,
            }
            &&& match input.force_path_style {
                Some(v) => r.force_path_style == v,
                None => r.force_path_style == existing.force_path_style,
            }
            &&& match input.username {
                Some(v) => r.username == Some(v),
                None => r.username == existing.username,
            }
            &&& match input.password {
                Some(v) => r.password == Some(v),
                None => r.password == existing.password,
            }
            &&& match input.redis_password {
                Some(v) => r.redis_password == Some(v),
                None => r.redis_password == existing.redis_password,
            }
            &&& match input.db_index {
                Some(v) => r.db_index == Some(v),
                None => r.db_index == existing.db_index,
            }
            &&& match input.oss_preview_rpc_url {
                Some(v) => r.oss_preview_rpc_url == v,
                None => r.oss_preview_rpc_url == existing.oss_preview_rpc_url,
            }
            &&& match input.oss_preview_cookie {
                Some(v) => r.oss_preview_cookie == v,
                None => r.oss_preview_cookie == existing.oss_preview_cookie,
            }
        }),
{
}

/// Whether an update submits no field at all.
pub open spec fn config_update_is_empty(input: UpdateBackendConfigInput) -> bool {
    &&& input.name is None
    &&& input.backend_type is None
    &&& input.endpoint is None
    &&& input.region is None
    &&& input.bucket is None
    &&& input.access_key_id is None
    &&& input.secret_access_key is None
    &&& input.force_path_style is None
    &&& input.username is None
    &&& input.password is None
    &&& input.redis_password is None
    &&& input.db_index is None
    &&& input.oss_preview_rpc_url is None
    &&& input.oss_preview_cookie is None
}

/// An update that submits nothing leaves the configuration as it was.
pub proof fn law_empty_config_update_changes_nothing(existing: BackendConfig, input: UpdateBackendConfigInput)
    requires
        config_update_is_empty(input),
    ensures
        config_update_spec(existing, input) == existing,
{
}

/// Applying the same update twice is the same as applying it once.
pub proof fn law_config_update_idempotent(existing: BackendConfig, input: UpdateBackendConfigInput)
    ensures
        config_update_spec(config_update_spec(existing, input), input) == config_update_spec(
            existing,
            input,
        ),
{
}

/// A configuration with the submitted changes applied.
pub fn apply_config_update(existing: BackendConfig, input: UpdateBackendConfigInput) -> (res:
    BackendConfig)
    ensures
        res == config_update_spec(existing, input),
{
    BackendConfig {
        id: existing.id,
        name: take_or(input.name, existing.name),
        backend_type: take_or(input.backend_type, existing.backend_type),
        endpoint: take_or(input.endpoint, existing.endpoint),
        region: take_or(input.region, existing.region),
        bucket: take_or(input.bucket, existing.bucket),
        access_key_id: take_or(input.access_key_id, existing.access_key_id),
        secret_access_key: take_or(input.secret_access_key, existing.secret_access_key),
        force_path_style: take_or(input.force_path_style, existing.force_path_style),
        username: take_or_opt(input.username, existing.username),
        password: take_or_opt(input.password, existing.password),
        redis_password: take_or_opt(input.redis_password, existing.redis_password),
        db_index: take_or_opt(input.db_index, existing.db_index),
        oss_preview_rpc_url: take_or(input.oss_preview_rpc_url, existing.oss_preview_rpc_url),
        oss_preview_cookie: take_or(input.oss_preview_cookie, existing.oss_preview_cookie),
        created_at: existing.created_at,
    }
}

} // verus!
