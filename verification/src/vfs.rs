//! Virtual filesystem backed by the browser's `localStorage`.
//!
//! Every file is stored under the key prefix `"vfs:"`: a file named
//! `notes.txt` lives under the key `"vfs:notes.txt"`. Keys without that prefix
//! belong to other users of the storage and are never listed.
//!
//! The storage is the browser's: what it holds, and whether it accepts a
//! write, is decided outside this library. The functions that talk to it
//! ([`write`], [`read`], [`file_exists`], [`list`]) therefore promise only what
//! holds whatever the browser answers. They pass the window's storage to
//! [`write_to`], [`read_from`], [`file_exists_in`] and [`list_in`], which state
//! what happens without a storage; the key used and what is made of each
//! answer are the verified functions [`vfs_key`], [`file_name_of_key`],
//! [`stored_file`] and [`list_from_keys`], whose contracts are exact.
//!
//! Every call into the browser goes through `wasm-bindgen` imports, which
//! exist only on `wasm32` targets: elsewhere they panic, so the functions that
//! reach the storage are for the browser build alone.

use vstd::prelude::*;
use vstd::relations::sorted_by;

use crate::order::{char_vec_views, lex_order, sort_char_vecs, string_views};
use crate::text::{chars_of, push_char, string_of};

verus! {

/// `web_sys::Window`, carried through as an opaque handle.
#[verifier::external_type_specification]
#[verifier::external_body]
pub struct ExWindow(web_sys::Window);

/// `web_sys::Storage`, carried through as an opaque handle.
#[verifier::external_type_specification]
#[verifier::external_body]
pub struct ExStorage(web_sys::Storage);

/// `wasm_bindgen::JsValue`, the error value of every storage call.
#[verifier::external_type_specification]
#[verifier::external_body]
pub struct ExJsValue(wasm_bindgen::JsValue);

/// The prefix of every key that holds a file.
pub open spec fn vfs_prefix() -> Seq<char> {
    seq!['v', 'f', 's', ':']
}

/// The storage key of the file named `filename`.
pub open spec fn key_of(filename: Seq<char>) -> Seq<char> {
    vfs_prefix() + filename
}

/// The file name stored under `key`, or `None` when `key` does not start with
/// the prefix.
pub open spec fn name_of(key: Seq<char>) -> Option<Seq<char>> {
    if key.len() >= 4 && key.take(4) == vfs_prefix() {
        Some(key.skip(4))
    } else {
        None
    }
}

/// The file names found among `keys`, in the order of the keys; absent keys
/// and keys without the prefix are skipped.
pub open spec fn names_in(keys: Seq<Option<Seq<char>>>) -> Seq<Seq<char>>
    decreases keys.len(),
{
    if keys.len() == 0 {
        seq![]
    } else {
        let rest = names_in(keys.drop_last());
        match keys.last() {
            Some(k) => match name_of(k) {
                Some(n) => rest.push(n),
                None => rest,
            },
            None => rest,
        }
    }
}

/// The views of a sequence of optional strings.
pub open spec fn optional_views(keys: Seq<Option<String>>) -> Seq<Option<Seq<char>>> {
    keys.map_values(
        |k: Option<String>|
            match k {
                Some(s) => Some(s@),
                None => None,
            },
    )
}

/// What [`list`] returns when the storage reports `keys`: the file names
/// among them, sorted.
pub open spec fn listing(keys: Seq<Option<Seq<char>>>) -> Seq<Seq<char>> {
    names_in(keys).sort_by(lex_order())
}

/// `web_sys::window`: the browser window, if there is one. What it returns
/// depends on the environment; nothing is stated of it.
#[verifier::external_body]
fn browser_window() -> Option<web_sys::Window> {
    web_sys::window()
}

/// `web_sys::Window::local_storage`: the window's `localStorage`. What it
/// returns depends on the browser; nothing is stated of it.
#[verifier::external_body]
fn window_local_storage(
    window: &web_sys::Window,
) -> Result<Option<web_sys::Storage>, wasm_bindgen::JsValue> {
    window.local_storage()
}

/// `web_sys::Storage::set_item`: stores `value` under `key`. Whether the
/// browser accepts it (storage may be full or disabled) is not stated.
#[verifier::external_body]
fn storage_set_item(
    storage: &web_sys::Storage,
    key: &str,
    value: &str,
) -> Result<(), wasm_bindgen::JsValue> {
    storage.set_item(key, value)
}

/// `web_sys::Storage::get_item`: the value stored under `key`. It depends on
/// what the browser holds; nothing is stated of it.
#[verifier::external_body]
fn storage_get_item(
    storage: &web_sys::Storage,
    key: &str,
) -> Result<Option<String>, wasm_bindgen::JsValue> {
    storage.get_item(key)
}

/// `web_sys::Storage::length`: the number of stored keys. It depends on what
/// the browser holds; nothing is stated of it.
#[verifier::external_body]
fn storage_length(storage: &web_sys::Storage) -> Result<u32, wasm_bindgen::JsValue> {
    storage.length()
}

/// `web_sys::Storage::key`: the key at `index`. Which key comes at which index
/// is the browser's choice; nothing is stated of it.
#[verifier::external_body]
fn storage_key_at(
    storage: &web_sys::Storage,
    index: u32,
) -> Result<Option<String>, wasm_bindgen::JsValue> {
    storage.key(index)
}

/// The window's `localStorage`, or `None` when there is no window, the
/// browser refuses access, or storage is disabled.
fn local_storage() -> Option<web_sys::Storage> {
    match browser_window() {
        None => None,
        Some(window) => match window_local_storage(&window) {
            Ok(storage) => storage,
            Err(_) => None,
        },
    }
}

/// The storage key of the file named `filename`: `"vfs:"` followed by the
/// name.
pub fn vfs_key(filename: &str) -> (key: String)
    ensures
        key@ == key_of(filename@),
{
    let mut key = String::new();
    push_char(&mut key, 'v');
    push_char(&mut key, 'f');
    push_char(&mut key, 's');
    push_char(&mut key, ':');
    key.append(filename);
    assert(key@ =~= key_of(filename@));
    key
}

/// The file name stored under `key`: the rest of the key after the `"vfs:"`
/// prefix, or `None` when the key does not start with it.
pub fn file_name_of_key(key: &str) -> (name: Option<String>)
    ensures
        name matches Some(n) ==> name_of(key@) == Some(n@),
        name is None ==> name_of(key@) is None,
{
    let chars = chars_of(key);
    match name_from_chars(&chars) {
        Some(rest) => Some(string_of(&rest)),
        None => None,
    }
}

/// [`file_name_of_key`] on the characters of a key.
fn name_from_chars(chars: &Vec<char>) -> (name: Option<Vec<char>>)
    ensures
        name matches Some(n) ==> name_of(chars@) == Some(n@),
        name is None ==> name_of(chars@) is None,
{
    if chars.len() < 4 || chars[0] != 'v' || chars[1] != 'f' || chars[2] != 's' || chars[3] != ':' {
        proof {
            if chars@.len() >= 4 && chars@.take(4) == vfs_prefix() {
                assert(chars@.take(4)[0] == 'v');
                assert(chars@.take(4)[1] == 'f');
                assert(chars@.take(4)[2] == 's');
                assert(chars@.take(4)[3] == ':');
            }
        }
        return None;
    }
    let mut rest: Vec<char> = Vec::new();
    let mut i: usize = 4;
    while i < chars.len()
        invariant
            4 <= i <= chars@.len(),
            rest@ == chars@.subrange(4, i as int),
        decreases chars@.len() - i,
    {
        rest.push(chars[i]);
        assert(chars@.subrange(4, i + 1) =~= chars@.subrange(4, i as int).push(chars@[i as int]));
        i = i + 1;
    }
    assert(chars@.take(4) =~= vfs_prefix());
    assert(rest@ =~= chars@.skip(4));
    Some(rest)
}

/// The file names among `keys`, sorted: what [`list`] makes of the keys that
/// the storage reports.
pub fn list_from_keys(keys: Vec<Option<String>>) -> (files: Vec<String>)
    ensures
        string_views(files@) == listing(optional_views(keys@)),
{
    let ghost ks = optional_views(keys@);
    let mut names: Vec<Vec<char>> = Vec::new();
    let mut i: usize = 0;
    while i < keys.len()
        invariant
            i <= keys@.len(),
            ks == optional_views(keys@),
            char_vec_views(names@) == names_in(ks.take(i as int)),
        decreases keys@.len() - i,
    {
        assert(ks.take(i + 1).drop_last() =~= ks.take(i as int));
        match &keys[i] {
            Some(key) => {
                let chars = chars_of(key.as_str());
                match name_from_chars(&chars) {
                    Some(name) => {
                        names.push(name);
                        assert(char_vec_views(names@) =~= names_in(ks.take(i as int)).push(
                            name@,
                        ));
                    },
                    None => {},
                }
            },
            None => {},
        }
        i = i + 1;
    }
    assert(ks.take(keys@.len() as int) =~= ks);
    let sorted = sort_char_vecs(names);
    let mut files: Vec<String> = Vec::new();
    let mut j: usize = 0;
    while j < sorted.len()
        invariant
            j <= sorted@.len(),
            string_views(files@) == char_vec_views(sorted@).take(j as int),
        decreases sorted@.len() - j,
    {
        let s = string_of(&sorted[j]);
        let ghost before = files@;
        files.push(s);
        assert(files@ == before.push(s));
        assert(string_views(files@) =~= string_views(before).push(sorted@[j as int]@));
        assert(char_vec_views(sorted@).take(j + 1) =~= char_vec_views(sorted@).take(j as int).push(
            sorted@[j as int]@,
        ));
        j = j + 1;
    }
    assert(char_vec_views(sorted@).take(sorted@.len() as int) =~= char_vec_views(sorted@));
    files
}

/// What [`read`] makes of the storage's answer: the stored value, or `None`
/// when there is none or the browser reported an error.
pub fn stored_file(answer: Result<Option<String>, wasm_bindgen::JsValue>) -> (r: Option<String>)
    ensures
        r == (match answer {
            Ok(v) => v,
            Err(_) => None,
        }),
{
    match answer {
        Ok(v) => v,
        Err(_) => None,
    }
}

/// Writes `content` to the file named `filename` in `storage`, under the key
/// [`vfs_key`]`(filename)`. Without a storage nothing is written and the result
/// is `false`; otherwise it is `true` when the browser accepts the write.
pub fn write_to(storage: Option<&web_sys::Storage>, filename: &str, content: &str) -> (ok: bool)
    ensures
        storage is None ==> !ok,
{
    match storage {
        None => false,
        Some(storage) => {
            let key = vfs_key(filename);
            storage_set_item(storage, key.as_str(), content).is_ok()
        },
    }
}

/// The content of the file named `filename` in `storage`: `None` without a
/// storage, otherwise what [`stored_file`] makes of the browser's answer for
/// the key [`vfs_key`]`(filename)`. Nothing is written.
pub fn read_from(storage: Option<&web_sys::Storage>, filename: &str) -> (content: Option<String>)
    ensures
        storage is None ==> content is None,
{
    match storage {
        None => None,
        Some(storage) => {
            let key = vfs_key(filename);
            stored_file(storage_get_item(storage, key.as_str()))
        },
    }
}

/// Whether `storage` holds a file named `filename`: `false` without a
/// storage, otherwise whether the browser reports a value under the key
/// [`vfs_key`]`(filename)`. Nothing is written.
pub fn file_exists_in(storage: Option<&web_sys::Storage>, filename: &str) -> (found: bool)
    ensures
        storage is None ==> !found,
{
    match storage {
        None => false,
        Some(storage) => {
            let key = vfs_key(filename);
            stored_file(storage_get_item(storage, key.as_str())).is_some()
        },
    }
}

/// The names of all files in `storage`, sorted: empty without a storage,
/// otherwise [`list_from_keys`] of the keys that the browser reports at the
/// indices below the length it reports.
pub fn list_in(storage: Option<&web_sys::Storage>) -> (files: Vec<String>)
    ensures
        storage is None ==> files@.len() == 0,
        exists|keys: Seq<Option<Seq<char>>>| string_views(files@) == #[trigger] listing(keys),
        sorted_by(string_views(files@), lex_order()),
{
    let keys = match storage {
        None => Vec::new(),
        Some(storage) => {
            let len = match storage_length(storage) {
                Ok(n) => n,
                Err(_) => 0,
            };
            let mut keys: Vec<Option<String>> = Vec::new();
            let mut i: u32 = 0;
            while i < len
                decreases len - i,
            {
                let key = match storage_key_at(storage, i) {
                    Ok(k) => k,
                    Err(_) => None,
                };
                keys.push(key);
                i = i + 1;
            }
            keys
        },
    };
    proof {
        law_listing_is_sorted(optional_views(keys@));
        if storage is None {
            let ks = optional_views(keys@);
            assert(ks =~= Seq::<Option<Seq<char>>>::empty());
            assert(names_in(ks) =~= Seq::<Seq<char>>::empty());
            vstd::seq_lib::to_multiset_len(names_in(ks));
            vstd::seq_lib::to_multiset_len(listing(ks));
        }
    }
    list_from_keys(keys)
}

/// Writes `content` to the file named `filename` in the window's
/// `localStorage`: [`write_to`] on that storage, or on none when there is no
/// window or the browser refuses access. Returns `true` on success.
pub fn write(filename: &str, content: &str) -> bool {
    let storage = local_storage();
    match &storage {
        None => write_to(None, filename, content),
        Some(s) => write_to(Some(s), filename, content),
    }
}

/// The content of the file named `filename` in the window's `localStorage`:
/// [`read_from`] on that storage, or on none when there is no window or the
/// browser refuses access.
pub fn read(filename: &str) -> Option<String> {
    let storage = local_storage();
    match &storage {
        None => read_from(None, filename),
        Some(s) => read_from(Some(s), filename),
    }
}

/// Whether the window's `localStorage` holds a file named `filename`:
/// [`file_exists_in`] on that storage, or on none when there is no window or
/// the browser refuses access. (Named `file_exists` because `exists` is a word
/// of the specification language.)
pub fn file_exists(filename: &str) -> bool {
    let storage = local_storage();
    match &storage {
        None => file_exists_in(None, filename),
        Some(s) => file_exists_in(Some(s), filename),
    }
}

/// The names of all files in the window's `localStorage`, sorted:
/// [`list_in`] on that storage, or on none (an empty list) when there is no
/// window or the browser refuses access.
pub fn list() -> (files: Vec<String>)
    ensures
        exists|keys: Seq<Option<Seq<char>>>| string_views(files@) == #[trigger] listing(keys),
        sorted_by(string_views(files@), lex_order()),
{
    let storage = local_storage();
    match &storage {
        None => list_in(None),
        Some(s) => list_in(Some(s)),
    }
}

/// A file's name reads back from its storage key, so distinct files never
/// share a key.
pub proof fn law_key_names_file(filename: Seq<char>)
    ensures
        name_of(key_of(filename)) == Some(filename),
{
    assert(key_of(filename).take(4) =~= vfs_prefix());
    assert(key_of(filename).skip(4) =~= filename);
}

/// A listing is sorted and holds exactly the file names found among the keys,
/// each as often as it occurs.
pub proof fn law_listing_is_sorted(keys: Seq<Option<Seq<char>>>)
    ensures
        sorted_by(listing(keys), lex_order()),
        listing(keys).to_multiset() == names_in(keys).to_multiset(),
{
    crate::order::law_lex_order_is_total();
    names_in(keys).lemma_sort_by_ensures(lex_order());
}

/// A key holds the file `name` exactly when it is that file's key.
pub proof fn law_key_of_file_is_unique(key: Seq<char>, name: Seq<char>)
    ensures
        name_of(key) == Some(name) <==> key == key_of(name),
{
    law_key_names_file(name);
    if name_of(key) == Some(name) {
        assert(key =~= key.take(4) + key.skip(4));
    }
}

proof fn lemma_names_in_contains(keys: Seq<Option<Seq<char>>>, name: Seq<char>)
    ensures
        names_in(keys).contains(name) <==> exists|i: int|
            0 <= i < keys.len() && #[trigger] keys[i] == Some(key_of(name)),
    decreases keys.len(),
{
    if keys.len() > 0 {
        let init = keys.drop_last();
        lemma_names_in_contains(init, name);
        let rest = names_in(init);
        match keys.last() {
            Some(k) => {
                law_key_of_file_is_unique(k, name);
                match name_of(k) {
                    Some(n) => {
                        law_key_of_file_is_unique(k, n);
                        assert(rest.push(n).contains(name) <==> (rest.contains(name) || n == name)) by {
                            if rest.push(n).contains(name) {
                                let j = choose|j: int| 0 <= j < rest.push(n).len() && rest.push(n)[j] == name;
                                if j < rest.len() {
                                    assert(rest[j] == name);
                                }
                            }
                            if rest.contains(name) {
                                let j = choose|j: int| 0 <= j < rest.len() && rest[j] == name;
                                assert(rest.push(n)[j] == name);
                            }
                            if n == name {
                                assert(rest.push(n)[rest.len() as int] == name);
                            }
                        }
                    },
                    None => {},
                }
            },
            None => {},
        }
        if exists|i: int| 0 <= i < keys.len() && #[trigger] keys[i] == Some(key_of(name)) {
            let i = choose|i: int| 0 <= i < keys.len() && #[trigger] keys[i] == Some(key_of(name));
            if i < init.len() {
                assert(init[i] == keys[i]);
            }
        }
        if exists|i: int| 0 <= i < init.len() && #[trigger] init[i] == Some(key_of(name)) {
            let i = choose|i: int| 0 <= i < init.len() && #[trigger] init[i] == Some(key_of(name));
            assert(keys[i] == init[i]);
        }
    }
}

/// A name is listed exactly when one of the reported keys is that file's key
/// `"vfs:" + name`: every stored file appears, and nothing else does.
pub proof fn law_listing_members(keys: Seq<Option<Seq<char>>>, name: Seq<char>)
    ensures
        listing(keys).contains(name) <==> exists|i: int|
            0 <= i < keys.len() && #[trigger] keys[i] == Some(key_of(name)),
{
    law_listing_is_sorted(keys);
    lemma_names_in_contains(keys, name);
    vstd::seq_lib::to_multiset_contains(listing(keys), name);
    vstd::seq_lib::to_multiset_contains(names_in(keys), name);
}

} // verus!
