//! The transaction context and what module logic can do with it: keep data
//! under a key for the length of the transaction, exchange items with the
//! framework, and ask for the user name and the authentication token.
//!
//! Every accessor has two halves. One is the request that goes to the
//! framework and the reply that comes back, a result code with an optional
//! buffer; the other is what the accessor makes of that reply. The second half
//! is the `*_reply` functions and `copy_pam_string`, which take the reply as
//! plain values. `PamHandle` is a context held in this process: it keeps what
//! a framework keeps for one transaction and answers the requests itself, so
//! that module logic can run, and be reasoned about, with no framework
//! attached. A binding to a live framework puts its foreign calls in place of
//! those answers and reads the replies with the same functions.

use vstd::prelude::*;
use vstd::string::StrSliceExecFns;
use vstd::string::StringSliceAdditionalSpecFns;
use vstd::utf8::{decode_utf8, valid_utf8};
use crate::constants::PamResultCode;
use crate::cstr::{bytes_eq, c_text, from_wire, is_c_text, to_wire};
use crate::items::{item_of_raw, lemma_item_round_trip, raw_fits, Item, ItemType, ItemView, RawItem, RawItemView};

verus! {

/// What every fallible operation of this layer returns.
pub type PamResult<T> = Result<T, PamResultCode>;

/// Decodes bytes as UTF-8 text.
///
/// Calls `String::from_utf8`, which std documents to succeed exactly on valid
/// UTF-8 and then to hold the text those bytes encode. Not proved here.
#[verifier::external_body]
fn string_from_utf8(bytes: Vec<u8>) -> (r: Option<String>)
    ensures
        r is Some <==> valid_utf8(bytes@),
        r matches Some(s) ==> s@ == decode_utf8(bytes@),
{
    match String::from_utf8(bytes) {
        Ok(s) => Some(s),
        Err(_) => None,
    }
}

/// Turns a result code into a result: success is `Ok`, any other code is the
/// error.
pub fn to_result(result: PamResultCode) -> (r: PamResult<()>)
    ensures
        r == (if result == PamResultCode::PAM_SUCCESS {
            Ok::<(), PamResultCode>(())
        } else {
            Err::<(), PamResultCode>(result)
        }),
{
    match result {
        PamResultCode::PAM_SUCCESS => Ok(()),
        otherwise => Err(otherwise),
    }
}

/// What `copy_pam_string` owes for a buffer: the empty text for no buffer,
/// else the decoded text before the first terminator, else a conversation
/// error where those bytes are not valid UTF-8.
pub open spec fn is_copied_string(buffer: Option<Seq<u8>>, r: PamResult<String>) -> bool {
    match buffer {
        None => r matches Ok(s) && s@ == Seq::<char>::empty(),
        Some(raw) => if valid_utf8(c_text(raw)) {
            r matches Ok(s) && s@ == decode_utf8(c_text(raw))
        } else {
            r == Err::<String, PamResultCode>(PamResultCode::PAM_CONV_ERR)
        },
    }
}

/// What a text request owes for the framework's reply: the reply's code where
/// it is not success, else what `copy_pam_string` owes for the buffer.
pub open spec fn is_string_reply(
    code: PamResultCode,
    buffer: Option<Seq<u8>>,
    r: PamResult<String>,
) -> bool {
    if code == PamResultCode::PAM_SUCCESS {
        is_copied_string(buffer, r)
    } else {
        r == Err::<String, PamResultCode>(code)
    }
}

/// The bytes of an optional buffer.
pub open spec fn buffer_view(buffer: Option<&Vec<u8>>) -> Option<Seq<u8>> {
    match buffer {
        None => None,
        Some(raw) => Some(raw@),
    }
}

/// Makes an owned copy of the text in a buffer the framework handed out.
/// The buffer itself is only read.
pub fn copy_pam_string(buffer: Option<&Vec<u8>>) -> (r: PamResult<String>)
    ensures
        is_copied_string(buffer_view(buffer), r),
{
    match buffer {
        None => Ok(String::new()),
        Some(raw) => {
            let bytes = from_wire(raw);
            match string_from_utf8(bytes) {
                Some(s) => Ok(s),
                None => Err(PamResultCode::PAM_CONV_ERR),
            }
        },
    }
}

/// Reads the framework's reply to a request for text.
pub fn string_reply(code: PamResultCode, buffer: Option<&Vec<u8>>) -> (r: PamResult<String>)
    ensures
        is_string_reply(code, buffer_view(buffer), r),
{
    match code {
        PamResultCode::PAM_SUCCESS => copy_pam_string(buffer),
        otherwise => Err(otherwise),
    }
}

/// Reads the framework's reply to a lookup in the keyed store: the value where
/// the code is success and a value came with it, else the code as the error.
pub fn data_reply<'a, T>(code: PamResultCode, data: Option<&'a T>) -> (r: PamResult<&'a T>)
    ensures
        match r {
            Ok(v) => code == PamResultCode::PAM_SUCCESS && data == Some(v),
            Err(e) => e == code && (code != PamResultCode::PAM_SUCCESS || data is None),
        },
{
    match data {
        Some(v) => match code {
            PamResultCode::PAM_SUCCESS => Ok(v),
            otherwise => Err(otherwise),
        },
        None => Err(code),
    }
}

/// What an item request owes for the framework's reply.
pub open spec fn is_item_reply(
    code: PamResultCode,
    t: ItemType,
    raw: Option<RawItemView>,
    r: PamResult<Option<Item>>,
) -> bool {
    if code == PamResultCode::PAM_SUCCESS {
        match raw {
            None => r == Ok::<Option<Item>, PamResultCode>(None),
            Some(w) => r matches Ok(Some(item)) && item@ == item_of_raw(t, w),
        }
    } else {
        r == Err::<Option<Item>, PamResultCode>(code)
    }
}

/// What an optional raw item holds.
pub open spec fn raw_view(raw: Option<&RawItem>) -> Option<RawItemView> {
    match raw {
        None => None,
        Some(w) => Some(w@),
    }
}

/// Reads the framework's reply to a request for the item of kind `t`: no raw
/// form is "absent", not an error; a code other than success is the error.
///
/// The raw form must have the shape that belongs to `t`: what the framework
/// holds for a kind is trusted to be what was last set for it.
pub fn item_reply(code: PamResultCode, t: ItemType, raw: Option<&RawItem>) -> (r: PamResult<Option<Item>>)
    requires
        raw matches Some(w) ==> raw_fits(t, w@),
    ensures
        is_item_reply(code, t, raw_view(raw), r),
{
    let item = match raw {
        None => None,
        Some(w) => Some(Item::from_raw(t, w)),
    };
    match code {
        PamResultCode::PAM_SUCCESS => Ok(item),
        other => Err(other),
    }
}

/// What a lookup in the keyed store owes: the value stored under the key, or
/// the no-data code where nothing is stored under it.
pub open spec fn is_data_lookup<T>(data: Map<Seq<u8>, T>, key: Seq<u8>, r: PamResult<&T>) -> bool {
    match r {
        Ok(v) => data.contains_key(key) && *v == data[key],
        Err(e) => !data.contains_key(key) && e == PamResultCode::PAM_NO_MODULE_DATA,
    }
}

/// One entry of the keyed store.
struct DataSlot<T> {
    key: Vec<u8>,
    value: T,
}

spec fn slot_at<T>(slots: Seq<DataSlot<T>>, i: int, key: Seq<u8>) -> bool {
    0 <= i < slots.len() && slots[i].key@ == key
}

spec fn unique_keys<T>(slots: Seq<DataSlot<T>>) -> bool {
    forall|i: int, j: int| 0 <= i < j < slots.len() ==> slots[i].key@ != slots[j].key@
}

spec fn slots_map<T>(slots: Seq<DataSlot<T>>) -> Map<Seq<u8>, T> {
    Map::new(
        |k: Seq<u8>| exists|i: int| slot_at(slots, i, k),
        |k: Seq<u8>| slots[choose|i: int| slot_at(slots, i, k)].value,
    )
}

proof fn lemma_slot_lookup<T>(slots: Seq<DataSlot<T>>, i: int)
    requires
        unique_keys(slots),
        0 <= i < slots.len(),
    ensures
        slots_map(slots).contains_key(slots[i].key@),
        slots_map(slots)[slots[i].key@] == slots[i].value,
{
    let k = slots[i].key@;
    assert(slot_at(slots, i, k));
    let j = choose|j: int| slot_at(slots, j, k);
    assert(j == i);
}

proof fn lemma_slot_absent<T>(slots: Seq<DataSlot<T>>, key: Seq<u8>)
    requires
        forall|i: int| 0 <= i < slots.len() ==> slots[i].key@ != key,
    ensures
        !slots_map(slots).contains_key(key),
{
    assert(forall|i: int| !slot_at(slots, i, key));
}

proof fn lemma_slot_replaced<T>(before: Seq<DataSlot<T>>, after: Seq<DataSlot<T>>, i: int)
    requires
        unique_keys(before),
        0 <= i < before.len(),
        after.len() == before.len(),
        after[i].key@ == before[i].key@,
        forall|j: int| 0 <= j < before.len() && j != i ==> after[j] == before[j],
    ensures
        unique_keys(after),
        slots_map(after) == slots_map(before).insert(after[i].key@, after[i].value),
{
    assert forall|a: int, b: int| 0 <= a < b < after.len() implies after[a].key@ != after[b].key@ by {
        assert(before[a].key@ != before[b].key@);
    }
    let want = slots_map(before).insert(after[i].key@, after[i].value);
    assert forall|k: Seq<u8>| slots_map(after).contains_key(k) <==> want.contains_key(k) by {
        if slots_map(after).contains_key(k) {
            let j = choose|j: int| slot_at(after, j, k);
            assert(slot_at(before, j, k));
        }
        if want.contains_key(k) && k != after[i].key@ {
            let j = choose|j: int| slot_at(before, j, k);
            assert(slot_at(after, j, k));
        }
        if k == after[i].key@ {
            assert(slot_at(after, i, k));
        }
    }
    assert forall|k: Seq<u8>| slots_map(after).contains_key(k) implies slots_map(after)[k] == want[k] by {
        let j = choose|j: int| slot_at(after, j, k);
        lemma_slot_lookup(after, j);
        if j != i {
            lemma_slot_lookup(before, j);
        }
    }
    assert(slots_map(after) =~= want);
}

proof fn lemma_slot_added<T>(before: Seq<DataSlot<T>>, after: Seq<DataSlot<T>>)
    requires
        unique_keys(before),
        after.len() == before.len() + 1,
        forall|j: int| 0 <= j < before.len() ==> after[j] == before[j],
        forall|j: int| 0 <= j < before.len() ==> before[j].key@ != after.last().key@,
    ensures
        unique_keys(after),
        slots_map(after) == slots_map(before).insert(after.last().key@, after.last().value),
{
    let n = before.len() as int;
    let want = slots_map(before).insert(after[n].key@, after[n].value);
    assert forall|k: Seq<u8>| slots_map(after).contains_key(k) <==> want.contains_key(k) by {
        if slots_map(after).contains_key(k) {
            let j = choose|j: int| slot_at(after, j, k);
            if j < n {
                assert(slot_at(before, j, k));
            }
        }
        if want.contains_key(k) && k != after[n].key@ {
            let j = choose|j: int| slot_at(before, j, k);
            assert(slot_at(after, j, k));
        }
        if k == after[n].key@ {
            assert(slot_at(after, n, k));
        }
    }
    assert forall|k: Seq<u8>| slots_map(after).contains_key(k) implies slots_map(after)[k] == want[k] by {
        let j = choose|j: int| slot_at(after, j, k);
        lemma_slot_lookup(after, j);
        if j < n {
            lemma_slot_lookup(before, j);
        }
    }
    assert(slots_map(after) =~= want);
}

spec fn item_at(items: Seq<Option<RawItem>>, t: ItemType) -> Option<RawItemView> {
    if t.spec_id() - 1 < items.len() {
        match items[t.spec_id() - 1] {
            None => None,
            Some(raw) => Some(raw@),
        }
    } else {
        None
    }
}

spec fn items_fit(items: Seq<Option<RawItem>>) -> bool {
    forall|t: ItemType| (#[trigger] item_at(items, t)) is Some ==> raw_fits(t, item_at(items, t)->Some_0)
}

/// The context of one authentication transaction: the keyed store that module
/// logic owns within it, with values of type `T`, and the items the framework
/// keeps for it.
pub struct PamHandle<T> {
    slots: Vec<DataSlot<T>>,
    items: Vec<Option<RawItem>>,
}

impl<T> PamHandle<T> {
    /// No key occurs twice in the store, and each item that is held has the
    /// raw form that belongs to its kind.
    #[verifier::type_invariant]
    spec fn wf(self) -> bool {
        &&& unique_keys(self.slots@)
        &&& items_fit(self.items@)
    }

    /// The keyed store: each key's bytes with the value last stored under it.
    pub closed spec fn data(&self) -> Map<Seq<u8>, T> {
        slots_map(self.slots@)
    }

    /// The raw form the framework holds for items of kind `t`, if any.
    pub closed spec fn item(&self, t: ItemType) -> Option<RawItemView> {
        item_at(self.items@, t)
    }

    /// The context of a transaction that has just begun: nothing is stored and
    /// no item is set.
    pub fn new() -> (h: PamHandle<T>)
        ensures
            h.data() == Map::<Seq<u8>, T>::empty(),
            forall|t: ItemType| h.item(t) is None,
    {
        let h = PamHandle { slots: Vec::new(), items: Vec::new() };
        proof {
            assert(h.data() =~= Map::<Seq<u8>, T>::empty()) by {
                assert(forall|k: Seq<u8>, i: int| !slot_at(h.slots@, i, k));
            }
        }
        h
    }

    fn find_slot(&self, key: &Vec<u8>) -> (r: Option<usize>)
        ensures
            match r {
                Some(i) => i < self.slots@.len() && self.slots@[i as int].key@ == key@,
                None => forall|i: int| 0 <= i < self.slots@.len() ==> self.slots@[i].key@ != key@,
            },
    {
        let mut i: usize = 0;
        while i < self.slots.len()
            invariant
                i <= self.slots@.len(),
                forall|j: int| 0 <= j < i ==> self.slots@[j].key@ != key@,
            decreases self.slots@.len() - i,
        {
            if bytes_eq(&self.slots[i].key, key) {
                return Some(i);
            }
            i += 1;
        }
        None
    }

    /// The framework's side of a lookup in the keyed store: success with the
    /// value, or the no-data code with nothing.
    fn pam_get_data(&self, name: &Vec<u8>) -> (r: (PamResultCode, Option<&T>))
        ensures
            match r.1 {
                Some(v) => r.0 == PamResultCode::PAM_SUCCESS && self.data().contains_key(c_text(name@))
                    && *v == self.data()[c_text(name@)],
                None => r.0 == PamResultCode::PAM_NO_MODULE_DATA && !self.data().contains_key(
                    c_text(name@),
                ),
            },
    {
        proof {
            use_type_invariant(self);
        }
        let key = from_wire(name);
        match self.find_slot(&key) {
            Some(i) => {
                proof {
                    lemma_slot_lookup(self.slots@, i as int);
                }
                (PamResultCode::PAM_SUCCESS, Some(&self.slots[i].value))
            },
            None => {
                proof {
                    lemma_slot_absent(self.slots@, key@);
                }
                (PamResultCode::PAM_NO_MODULE_DATA, None)
            },
        }
    }

    /// The framework's side of a store into the keyed store: the value takes
    /// the key's place, and a value that was there is given up.
    fn pam_set_data(&mut self, name: &Vec<u8>, data: Box<T>) -> (r: PamResultCode)
        ensures
            r == PamResultCode::PAM_SUCCESS,
            final(self).data() == old(self).data().insert(c_text(name@), *data),
            forall|t: ItemType| final(self).item(t) == old(self).item(t),
    {
        proof {
            use_type_invariant(&*self);
        }
        let key = from_wire(name);
        let found = self.find_slot(&key);
        let mut slots: Vec<DataSlot<T>> = Vec::new();
        std::mem::swap(&mut slots, &mut self.slots);
        let ghost before = slots@;
        match found {
            Some(i) => {
                slots.set(i, DataSlot { key, value: *data });
                proof {
                    lemma_slot_replaced(before, slots@, i as int);
                }
            },
            None => {
                slots.push(DataSlot { key, value: *data });
                proof {
                    lemma_slot_added(before, slots@);
                }
            },
        }
        self.slots = slots;
        PamResultCode::PAM_SUCCESS
    }

    /// The framework's side of an item request: success, with the raw form it
    /// holds for the kind, if it holds one.
    fn pam_get_item(&self, item_type: ItemType) -> (r: (PamResultCode, Option<&RawItem>))
        ensures
            r.0 == PamResultCode::PAM_SUCCESS,
            raw_view(r.1) == self.item(item_type),
            r.1 matches Some(w) ==> raw_fits(item_type, w@),
    {
        proof {
            use_type_invariant(self);
        }
        let idx: usize = (item_type.id() - 1) as usize;
        let raw = if idx < self.items.len() {
            match &self.items[idx] {
                None => None,
                Some(w) => Some(w),
            }
        } else {
            None
        };
        assert(raw_view(raw) == item_at(self.items@, item_type));
        (PamResultCode::PAM_SUCCESS, raw)
    }

    /// The framework's side of setting an item: the raw form takes the place of
    /// what was held for the kind.
    fn pam_set_item(&mut self, item_type: ItemType, raw: RawItem) -> (r: PamResultCode)
        requires
            raw_fits(item_type, raw@),
        ensures
            r == PamResultCode::PAM_SUCCESS,
            final(self).item(item_type) == Some(raw@),
            forall|t: ItemType| t != item_type ==> final(self).item(t) == old(self).item(t),
            final(self).data() == old(self).data(),
    {
        proof {
            use_type_invariant(&*self);
        }
        let idx: usize = (item_type.id() - 1) as usize;
        let mut items: Vec<Option<RawItem>> = Vec::new();
        std::mem::swap(&mut items, &mut self.items);
        let ghost before = items@;
        while items.len() <= idx
            invariant
                before.len() <= items@.len(),
                forall|t: ItemType| item_at(items@, t) == item_at(before, t),
            decreases idx + 1 - items@.len(),
        {
            items.push(None);
        }
        items.set(idx, Some(raw));
        proof {
            assert forall|t: ItemType| t != item_type implies item_at(items@, t) == item_at(
                before,
                t,
            ) by {
                assert(t.spec_id() != item_type.spec_id());
            }
            assert forall|t: ItemType| (#[trigger] item_at(items@, t)) is Some implies raw_fits(
                t,
                item_at(items@, t)->Some_0,
            ) by {
                if t != item_type {
                    assert(item_at(items@, t) == item_at(before, t));
                }
            }
        }
        self.items = items;
        PamResultCode::PAM_SUCCESS
    }

    /// The framework's side of a request for text held as an item: success,
    /// with the wire buffer of the item if one is held. The prompt would be
    /// shown to the user by a framework that has to ask; here nothing is asked.
    fn pam_get_text(&self, item_type: ItemType, _prompt: Option<&Vec<u8>>) -> (r: (
        PamResultCode,
        Option<&Vec<u8>>,
    ))
        ensures
            r.0 == PamResultCode::PAM_SUCCESS,
            buffer_view(r.1) == item_buffer(self.item(item_type)),
    {
        let idx: usize = (item_type.id() - 1) as usize;
        let buffer = if idx < self.items.len() {
            match &self.items[idx] {
                Some(RawItem::Text(w)) => Some(w),
                _ => None,
            }
        } else {
            None
        };
        (PamResultCode::PAM_SUCCESS, buffer)
    }

    /// Gets the value stored under `key` by an earlier `set_data`.
    ///
    /// Where nothing is stored under `key` the error is the framework's
    /// no-data code.
    pub fn get_data(&self, key: &str) -> (r: PamResult<&T>)
        requires
            is_c_text(key.spec_bytes()),
        ensures
            is_data_lookup(self.data(), key.spec_bytes(), r),
    {
        let c_key = to_wire(&key.as_bytes_vec());
        proof {
            crate::cstr::lemma_wire_round_trip(key.spec_bytes());
        }
        let (res, ptr) = self.pam_get_data(&c_key);
        data_reply(res, ptr)
    }

    /// Stores `data` under `key` for the rest of the transaction. A value
    /// stored under `key` before is superseded and given up; every other key
    /// and every item stays as it was.
    pub fn set_data(&mut self, key: &str, data: Box<T>) -> (r: PamResult<()>)
        requires
            is_c_text(key.spec_bytes()),
        ensures
            r is Ok,
            final(self).data() == old(self).data().insert(key.spec_bytes(), *data),
            forall|t: ItemType| final(self).item(t) == old(self).item(t),
    {
        let c_key = to_wire(&key.as_bytes_vec());
        proof {
            crate::cstr::lemma_wire_round_trip(key.spec_bytes());
        }
        let res = self.pam_set_data(&c_key, data);
        to_result(res)
    }

    /// Gets the item of kind `item_type`: `None` where none is set, else the
    /// item built from the raw form the framework holds.
    pub fn get_item(&self, item_type: ItemType) -> (r: PamResult<Option<Item>>)
        ensures
            is_item_reply(PamResultCode::PAM_SUCCESS, item_type, self.item(item_type), r),
            r matches Ok(Some(item)) ==> item@.item_type() == item_type,
    {
        let (res, ptr) = self.pam_get_item(item_type);
        item_reply(res, item_type, ptr)
    }

    /// Sets an item, giving it up to the framework in its raw form. Items of
    /// other kinds and the keyed store stay as they were.
    pub fn set_item_str(&mut self, item: Item) -> (r: PamResult<()>)
        requires
            item@.marshals(),
        ensures
            r is Ok,
            final(self).item(item@.item_type()) == Some(item@.raw()),
            forall|t: ItemType| t != item@.item_type() ==> final(self).item(t) == old(self).item(t),
            final(self).data() == old(self).data(),
    {
        let item_type = item.type_id();
        let res = self.pam_set_item(item_type, item.into_raw());
        to_result(res)
    }

    /// Gets the name of the user of the transaction as owned text: the empty
    /// text where the framework has no buffer for it, a conversation error
    /// where the buffer is not valid UTF-8.
    pub fn get_user(&self, prompt: Option<&str>) -> (r: PamResult<String>)
        requires
            prompt matches Some(p) ==> is_c_text(p.spec_bytes()),
        ensures
            is_copied_string(item_buffer(self.item(ItemType::User)), r),
    {
        let c_prompt = match prompt {
            Some(p) => Some(to_wire(&p.as_bytes_vec())),
            None => None,
        };
        let (res, output) = self.pam_get_text(ItemType::User, c_prompt.as_ref());
        string_reply(res, output)
    }

    /// Gets the authentication token as owned text, under the same rules as
    /// `get_user`.
    pub fn get_authtok(&self, prompt: Option<&str>) -> (r: PamResult<String>)
        requires
            prompt matches Some(p) ==> is_c_text(p.spec_bytes()),
        ensures
            is_copied_string(item_buffer(self.item(ItemType::AuthTok)), r),
    {
        let c_prompt = match prompt {
            Some(p) => Some(to_wire(&p.as_bytes_vec())),
            None => None,
        };
        let (res, output) = self.pam_get_text(ItemType::AuthTok, c_prompt.as_ref());
        string_reply(res, output)
    }
}

/// The wire buffer of a raw item that is text.
pub open spec fn item_buffer(raw: Option<RawItemView>) -> Option<Seq<u8>> {
    match raw {
        Some(RawItemView::Text(w)) => Some(w),
        _ => None,
    }
}

/// A value stored under a key is what a later lookup of that key gives, and a
/// lookup of any other key gives what it gave before.
pub proof fn lemma_set_then_get_data<T>(
    before: PamHandle<T>,
    after: PamHandle<T>,
    key: Seq<u8>,
    value: T,
    r: PamResult<&T>,
    other: Seq<u8>,
    r_other: PamResult<&T>,
)
    requires
        after.data() == before.data().insert(key, value),
        is_data_lookup(after.data(), key, r),
        other != key,
        is_data_lookup(after.data(), other, r_other),
    ensures
        r matches Ok(v) && *v == value,
        is_data_lookup(before.data(), other, r_other),
{
}

/// An item that was set is the item a later request for its kind gives.
pub proof fn lemma_set_then_get_item<T>(
    after: PamHandle<T>,
    item: ItemView,
    r: PamResult<Option<Item>>,
)
    requires
        item.marshals(),
        after.item(item.item_type()) == Some(item.raw()),
        is_item_reply(PamResultCode::PAM_SUCCESS, item.item_type(), after.item(item.item_type()), r),
    ensures
        r matches Ok(Some(got)) && got@ == item,
{
    lemma_item_round_trip(item);
}

/// A request for an item of a kind that holds nothing gives "absent", and no
/// error.
pub proof fn lemma_get_item_never_set<T>(h: PamHandle<T>, t: ItemType, r: PamResult<Option<Item>>)
    requires
        h.item(t) is None,
        is_item_reply(PamResultCode::PAM_SUCCESS, t, h.item(t), r),
    ensures
        r == Ok::<Option<Item>, PamResultCode>(None),
{
}

/// Once the user name or the authentication token is set as an item, a
/// request for it as text gives that text decoded, or a conversation error
/// where it is not valid UTF-8.
pub proof fn lemma_set_then_get_text<T>(after: PamHandle<T>, item: ItemView, r: PamResult<String>)
    requires
        item matches ItemView::User(_) || item matches ItemView::AuthTok(_),
        item.marshals(),
        after.item(item.item_type()) == Some(item.raw()),
        is_copied_string(item_buffer(after.item(item.item_type())), r),
    ensures
        match item {
            ItemView::User(text) | ItemView::AuthTok(text) => if valid_utf8(text) {
                r matches Ok(s) && s@ == decode_utf8(text)
            } else {
                r == Err::<String, PamResultCode>(PamResultCode::PAM_CONV_ERR)
            },
            _ => true,
        },
{
    match item {
        ItemView::User(text) => crate::cstr::lemma_wire_round_trip(text),
        ItemView::AuthTok(text) => crate::cstr::lemma_wire_round_trip(text),
        _ => {},
    }
}

} // verus!
