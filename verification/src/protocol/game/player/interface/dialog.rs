//! Click actions of dialogs, sent as NBT compounds keyed by their field names.

use crate::protocol::serialization::{ErrKind, SerializingErr};
use crate::protocol_types::datatypes::nbt::{
    lemma_lookup_insert, spec_insert, spec_lookup, NbtCompound, NbtTag, NbtValue,
};
use crate::protocol_types::datatypes::nbt_fields::{dec_i32, dec_opt_str, dec_str, get_i32, get_opt_str, get_str};
use vstd::prelude::*;

verus! {

/// Open a URL in the player's browser.
#[derive(Debug, Clone, PartialEq)]
pub struct OpenUrlAction {
    pub url: String,
}

impl DeepView for OpenUrlAction {
    type V = Seq<char>;

    open spec fn deep_view(&self) -> Self::V {
        self.url@
    }
}

impl OpenUrlAction {
    /// The entries of the compound that stands for a value: one per field, in order, with absent
    /// optional fields left out.
    pub open spec fn spec_to_entries(v: <OpenUrlAction as DeepView>::V) -> Seq<(Seq<char>, NbtValue)> {
        let e0 = Seq::<(Seq<char>, NbtValue)>::empty();
        let e1 = spec_insert(e0, "url"@, NbtValue::Str(v));
        e1
    }

    /// The value that compound entries stand for, if every field is there with its type.
    pub open spec fn spec_from_entries(es: Seq<(Seq<char>, NbtValue)>) -> Option<<OpenUrlAction as DeepView>::V> {
        match dec_str(es, "url"@) {
            Some(x0) =>
                Some(x0),
            None => None,
        }
    }

    pub fn new(url: String) -> (r: Self)
        ensures
            r == (OpenUrlAction { url }),
    {
        OpenUrlAction { url }
    }

    /// The compound that stands for this value. Useful for serializing.
    pub fn to_nbt(&self) -> (c: NbtCompound)
        ensures
            c.deep_view() == (None::<Seq<char>>, Self::spec_to_entries(self.deep_view())),
    {
        let mut nbt = NbtCompound::new(None);
        nbt.add("url".to_owned(), NbtTag::Str(self.url.clone()));
        nbt
    }

    /// The value a compound stands for. Useful for deserializing. A field that is missing,
    /// or is not of its type, is refused.
    pub fn from_nbt(nbt: &NbtCompound) -> (r: Result<Self, SerializingErr>)
        ensures
            match Self::spec_from_entries(nbt.deep_view().1) {
                Some(v) => r matches Ok(x) && x.deep_view() == v,
                None => r matches Err(e) && e.kind() == ErrKind::NbtMissingField,
            },
    {
        let name = "url".to_owned();
        let url = match get_str(nbt, &name) {
            Some(x) => x,
            None => return Err(SerializingErr::NbtMissingField(name)),
        };
        Ok(OpenUrlAction { url })
    }
}

/// A OpenUrlAction turned into a compound and back is the same value.
pub proof fn lemma_open_url_action_nbt_round_trip(v: <OpenUrlAction as DeepView>::V)
    ensures
        OpenUrlAction::spec_from_entries(OpenUrlAction::spec_to_entries(v)) == Some(v),
{
    reveal_strlit("url");
    assert("url"@.len() == 3);
    let e0 = Seq::<(Seq<char>, NbtValue)>::empty();
    let e1 = spec_insert(e0, "url"@, NbtValue::Str(v));
    lemma_lookup_insert(e0, "url"@, NbtValue::Str(v), "url"@);
    assert(dec_str(e1, "url"@) == Some(v));
    assert(e1 == OpenUrlAction::spec_to_entries(v));
}

/// Run a command as if typed in chat.
#[derive(Debug, Clone, PartialEq)]
pub struct RunCommandAction {
    pub command: String,
}

impl DeepView for RunCommandAction {
    type V = Seq<char>;

    open spec fn deep_view(&self) -> Self::V {
        self.command@
    }
}

impl RunCommandAction {
    /// The entries of the compound that stands for a value: one per field, in order, with absent
    /// optional fields left out.
    pub open spec fn spec_to_entries(v: <RunCommandAction as DeepView>::V) -> Seq<(Seq<char>, NbtValue)> {
        let e0 = Seq::<(Seq<char>, NbtValue)>::empty();
        let e1 = spec_insert(e0, "command"@, NbtValue::Str(v));
        e1
    }

    /// The value that compound entries stand for, if every field is there with its type.
    pub open spec fn spec_from_entries(es: Seq<(Seq<char>, NbtValue)>) -> Option<<RunCommandAction as DeepView>::V> {
        match dec_str(es, "command"@) {
            Some(x0) =>
                Some(x0),
            None => None,
        }
    }

    pub fn new(command: String) -> (r: Self)
        ensures
            r == (RunCommandAction { command }),
    {
        RunCommandAction { command }
    }

    /// The compound that stands for this value. Useful for serializing.
    pub fn to_nbt(&self) -> (c: NbtCompound)
        ensures
            c.deep_view() == (None::<Seq<char>>, Self::spec_to_entries(self.deep_view())),
    {
        let mut nbt = NbtCompound::new(None);
        nbt.add("command".to_owned(), NbtTag::Str(self.command.clone()));
        nbt
    }

    /// The value a compound stands for. Useful for deserializing. A field that is missing,
    /// or is not of its type, is refused.
    pub fn from_nbt(nbt: &NbtCompound) -> (r: Result<Self, SerializingErr>)
        ensures
            match Self::spec_from_entries(nbt.deep_view().1) {
                Some(v) => r matches Ok(x) && x.deep_view() == v,
                None => r matches Err(e) && e.kind() == ErrKind::NbtMissingField,
            },
    {
        let name = "command".to_owned();
        let command = match get_str(nbt, &name) {
            Some(x) => x,
            None => return Err(SerializingErr::NbtMissingField(name)),
        };
        Ok(RunCommandAction { command })
    }
}

/// A RunCommandAction turned into a compound and back is the same value.
pub proof fn lemma_run_command_action_nbt_round_trip(v: <RunCommandAction as DeepView>::V)
    ensures
        RunCommandAction::spec_from_entries(RunCommandAction::spec_to_entries(v)) == Some(v),
{
    reveal_strlit("command");
    assert("command"@.len() == 7);
    let e0 = Seq::<(Seq<char>, NbtValue)>::empty();
    let e1 = spec_insert(e0, "command"@, NbtValue::Str(v));
    lemma_lookup_insert(e0, "command"@, NbtValue::Str(v), "command"@);
    assert(dec_str(e1, "command"@) == Some(v));
    assert(e1 == RunCommandAction::spec_to_entries(v));
}

/// Fill the chat box with the given text or command.
#[derive(Debug, Clone, PartialEq)]
pub struct SuggestCommandAction {
    pub command: String,
}

impl DeepView for SuggestCommandAction {
    type V = Seq<char>;

    open spec fn deep_view(&self) -> Self::V {
        self.command@
    }
}

impl SuggestCommandAction {
    /// The entries of the compound that stands for a value: one per field, in order, with absent
    /// optional fields left out.
    pub open spec fn spec_to_entries(v: <SuggestCommandAction as DeepView>::V) -> Seq<(Seq<char>, NbtValue)> {
        let e0 = Seq::<(Seq<char>, NbtValue)>::empty();
        let e1 = spec_insert(e0, "command"@, NbtValue::Str(v));
        e1
    }

    /// The value that compound entries stand for, if every field is there with its type.
    pub open spec fn spec_from_entries(es: Seq<(Seq<char>, NbtValue)>) -> Option<<SuggestCommandAction as DeepView>::V> {
        match dec_str(es, "command"@) {
            Some(x0) =>
                Some(x0),
            None => None,
        }
    }

    pub fn new(command: String) -> (r: Self)
        ensures
            r == (SuggestCommandAction { command }),
    {
        SuggestCommandAction { command }
    }

    /// The compound that stands for this value. Useful for serializing.
    pub fn to_nbt(&self) -> (c: NbtCompound)
        ensures
            c.deep_view() == (None::<Seq<char>>, Self::spec_to_entries(self.deep_view())),
    {
        let mut nbt = NbtCompound::new(None);
        nbt.add("command".to_owned(), NbtTag::Str(self.command.clone()));
        nbt
    }

    /// The value a compound stands for. Useful for deserializing. A field that is missing,
    /// or is not of its type, is refused.
    pub fn from_nbt(nbt: &NbtCompound) -> (r: Result<Self, SerializingErr>)
        ensures
            match Self::spec_from_entries(nbt.deep_view().1) {
                Some(v) => r matches Ok(x) && x.deep_view() == v,
                None => r matches Err(e) && e.kind() == ErrKind::NbtMissingField,
            },
    {
        let name = "command".to_owned();
        let command = match get_str(nbt, &name) {
            Some(x) => x,
            None => return Err(SerializingErr::NbtMissingField(name)),
        };
        Ok(SuggestCommandAction { command })
    }
}

/// A SuggestCommandAction turned into a compound and back is the same value.
pub proof fn lemma_suggest_command_action_nbt_round_trip(v: <SuggestCommandAction as DeepView>::V)
    ensures
        SuggestCommandAction::spec_from_entries(SuggestCommandAction::spec_to_entries(v)) == Some(v),
{
    reveal_strlit("command");
    assert("command"@.len() == 7);
    let e0 = Seq::<(Seq<char>, NbtValue)>::empty();
    let e1 = spec_insert(e0, "command"@, NbtValue::Str(v));
    lemma_lookup_insert(e0, "command"@, NbtValue::Str(v), "command"@);
    assert(dec_str(e1, "command"@) == Some(v));
    assert(e1 == SuggestCommandAction::spec_to_entries(v));
}

/// Change to a page in a written book.
#[derive(Debug, Clone, PartialEq)]
pub struct ChangePageAction {
    pub page: i32,
}

impl DeepView for ChangePageAction {
    type V = i32;

    open spec fn deep_view(&self) -> Self::V {
        self.page
    }
}

impl ChangePageAction {
    /// The entries of the compound that stands for a value: one per field, in order, with absent
    /// optional fields left out.
    pub open spec fn spec_to_entries(v: <ChangePageAction as DeepView>::V) -> Seq<(Seq<char>, NbtValue)> {
        let e0 = Seq::<(Seq<char>, NbtValue)>::empty();
        let e1 = spec_insert(e0, "page"@, NbtValue::Int(v));
        e1
    }

    /// The value that compound entries stand for, if every field is there with its type.
    pub open spec fn spec_from_entries(es: Seq<(Seq<char>, NbtValue)>) -> Option<<ChangePageAction as DeepView>::V> {
        match dec_i32(es, "page"@) {
            Some(x0) =>
                Some(x0),
            None => None,
        }
    }

    pub fn new(page: i32) -> (r: Self)
        ensures
            r == (ChangePageAction { page }),
    {
        ChangePageAction { page }
    }

    /// The compound that stands for this value. Useful for serializing.
    pub fn to_nbt(&self) -> (c: NbtCompound)
        ensures
            c.deep_view() == (None::<Seq<char>>, Self::spec_to_entries(self.deep_view())),
    {
        let mut nbt = NbtCompound::new(None);
        nbt.add("page".to_owned(), NbtTag::Int(self.page));
        nbt
    }

    /// The value a compound stands for. Useful for deserializing. A field that is missing,
    /// or is not of its type, is refused.
    pub fn from_nbt(nbt: &NbtCompound) -> (r: Result<Self, SerializingErr>)
        ensures
            match Self::spec_from_entries(nbt.deep_view().1) {
                Some(v) => r matches Ok(x) && x.deep_view() == v,
                None => r matches Err(e) && e.kind() == ErrKind::NbtMissingField,
            },
    {
        let name = "page".to_owned();
        let page = match get_i32(nbt, &name) {
            Some(x) => x,
            None => return Err(SerializingErr::NbtMissingField(name)),
        };
        Ok(ChangePageAction { page })
    }
}

/// A ChangePageAction turned into a compound and back is the same value.
pub proof fn lemma_change_page_action_nbt_round_trip(v: <ChangePageAction as DeepView>::V)
    ensures
        ChangePageAction::spec_from_entries(ChangePageAction::spec_to_entries(v)) == Some(v),
{
    reveal_strlit("page");
    assert("page"@.len() == 4);
    let e0 = Seq::<(Seq<char>, NbtValue)>::empty();
    let e1 = spec_insert(e0, "page"@, NbtValue::Int(v));
    lemma_lookup_insert(e0, "page"@, NbtValue::Int(v), "page"@);
    assert(dec_i32(e1, "page"@) == Some(v));
    assert(e1 == ChangePageAction::spec_to_entries(v));
}

/// Copy text to the clipboard.
#[derive(Debug, Clone, PartialEq)]
pub struct CopyToClipboardAction {
    pub value: String,
}

impl DeepView for CopyToClipboardAction {
    type V = Seq<char>;

    open spec fn deep_view(&self) -> Self::V {
        self.value@
    }
}

impl CopyToClipboardAction {
    /// The entries of the compound that stands for a value: one per field, in order, with absent
    /// optional fields left out.
    pub open spec fn spec_to_entries(v: <CopyToClipboardAction as DeepView>::V) -> Seq<(Seq<char>, NbtValue)> {
        let e0 = Seq::<(Seq<char>, NbtValue)>::empty();
        let e1 = spec_insert(e0, "value"@, NbtValue::Str(v));
        e1
    }

    /// The value that compound entries stand for, if every field is there with its type.
    pub open spec fn spec_from_entries(es: Seq<(Seq<char>, NbtValue)>) -> Option<<CopyToClipboardAction as DeepView>::V> {
        match dec_str(es, "value"@) {
            Some(x0) =>
                Some(x0),
            None => None,
        }
    }

    pub fn new(value: String) -> (r: Self)
        ensures
            r == (CopyToClipboardAction { value }),
    {
        CopyToClipboardAction { value }
    }

    /// The compound that stands for this value. Useful for serializing.
    pub fn to_nbt(&self) -> (c: NbtCompound)
        ensures
            c.deep_view() == (None::<Seq<char>>, Self::spec_to_entries(self.deep_view())),
    {
        let mut nbt = NbtCompound::new(None);
        nbt.add("value".to_owned(), NbtTag::Str(self.value.clone()));
        nbt
    }

    /// The value a compound stands for. Useful for deserializing. A field that is missing,
    /// or is not of its type, is refused.
    pub fn from_nbt(nbt: &NbtCompound) -> (r: Result<Self, SerializingErr>)
        ensures
            match Self::spec_from_entries(nbt.deep_view().1) {
                Some(v) => r matches Ok(x) && x.deep_view() == v,
                None => r matches Err(e) && e.kind() == ErrKind::NbtMissingField,
            },
    {
        let name = "value".to_owned();
        let value = match get_str(nbt, &name) {
            Some(x) => x,
            None => return Err(SerializingErr::NbtMissingField(name)),
        };
        Ok(CopyToClipboardAction { value })
    }
}

/// A CopyToClipboardAction turned into a compound and back is the same value.
pub proof fn lemma_copy_to_clipboard_action_nbt_round_trip(v: <CopyToClipboardAction as DeepView>::V)
    ensures
        CopyToClipboardAction::spec_from_entries(CopyToClipboardAction::spec_to_entries(v)) == Some(v),
{
    reveal_strlit("value");
    assert("value"@.len() == 5);
    let e0 = Seq::<(Seq<char>, NbtValue)>::empty();
    let e1 = spec_insert(e0, "value"@, NbtValue::Str(v));
    lemma_lookup_insert(e0, "value"@, NbtValue::Str(v), "value"@);
    assert(dec_str(e1, "value"@) == Some(v));
    assert(e1 == CopyToClipboardAction::spec_to_entries(v));
}

/// Send a custom event to the server (no effect on vanilla servers).
#[derive(Debug, Clone, PartialEq)]
pub struct CustomAction {
    pub id: String,
    pub payload: Option<String>,
}

impl DeepView for CustomAction {
    type V = (Seq<char>, Option<Seq<char>>);

    open spec fn deep_view(&self) -> Self::V {
        (self.id@, self.payload.deep_view())
    }
}

impl CustomAction {
    /// The entries of the compound that stands for a value: one per field, in order, with absent
    /// optional fields left out.
    pub open spec fn spec_to_entries(v: <CustomAction as DeepView>::V) -> Seq<(Seq<char>, NbtValue)> {
        let e0 = Seq::<(Seq<char>, NbtValue)>::empty();
        let e1 = spec_insert(e0, "id"@, NbtValue::Str(v.0));
        let e2 = match v.1 { Some(x) => spec_insert(e1, "payload"@, NbtValue::Str(x)), None => e1 };
        e2
    }

    /// The value that compound entries stand for, if every field is there with its type.
    pub open spec fn spec_from_entries(es: Seq<(Seq<char>, NbtValue)>) -> Option<<CustomAction as DeepView>::V> {
        match dec_str(es, "id"@) {
            Some(x0) =>
            match dec_opt_str(es, "payload"@) {
                Some(x1) =>
                    Some((x0, x1)),
                None => None,
            },
            None => None,
        }
    }

    pub fn new(id: String, payload: Option<String>) -> (r: Self)
        ensures
            r == (CustomAction { id, payload }),
    {
        CustomAction { id, payload }
    }

    /// The compound that stands for this value. Useful for serializing.
    pub fn to_nbt(&self) -> (c: NbtCompound)
        ensures
            c.deep_view() == (None::<Seq<char>>, Self::spec_to_entries(self.deep_view())),
    {
        let mut nbt = NbtCompound::new(None);
        nbt.add("id".to_owned(), NbtTag::Str(self.id.clone()));
        if let Some(x) = &self.payload {
            nbt.add("payload".to_owned(), NbtTag::Str(x.clone()));
        }
        nbt
    }

    /// The value a compound stands for. Useful for deserializing. A field that is missing,
    /// or is not of its type, is refused.
    pub fn from_nbt(nbt: &NbtCompound) -> (r: Result<Self, SerializingErr>)
        ensures
            match Self::spec_from_entries(nbt.deep_view().1) {
                Some(v) => r matches Ok(x) && x.deep_view() == v,
                None => r matches Err(e) && e.kind() == ErrKind::NbtMissingField,
            },
    {
        let name = "id".to_owned();
        let id = match get_str(nbt, &name) {
            Some(x) => x,
            None => return Err(SerializingErr::NbtMissingField(name)),
        };
        let name = "payload".to_owned();
        let payload = match get_opt_str(nbt, &name) {
            Some(x) => x,
            None => return Err(SerializingErr::NbtMissingField(name)),
        };
        Ok(CustomAction { id, payload })
    }
}

/// A CustomAction turned into a compound and back is the same value.
pub proof fn lemma_custom_action_nbt_round_trip(v: <CustomAction as DeepView>::V)
    ensures
        CustomAction::spec_from_entries(CustomAction::spec_to_entries(v)) == Some(v),
{
    reveal_strlit("id");
    reveal_strlit("payload");
    assert("id"@.len() == 2);
    assert("payload"@.len() == 7);
    assert("id"@ != "payload"@);
    let e0 = Seq::<(Seq<char>, NbtValue)>::empty();
    let e1 = spec_insert(e0, "id"@, NbtValue::Str(v.0));
    let e2 = match v.1 { Some(x) => spec_insert(e1, "payload"@, NbtValue::Str(x)), None => e1 };
    lemma_lookup_insert(e0, "id"@, NbtValue::Str(v.0), "id"@);
    if let Some(x) = v.1 { lemma_lookup_insert(e1, "payload"@, NbtValue::Str(x), "id"@); }
    assert(dec_str(e2, "id"@) == Some(v.0));
    lemma_lookup_insert(e0, "id"@, NbtValue::Str(v.0), "payload"@);
    if let Some(x) = v.1 { lemma_lookup_insert(e1, "payload"@, NbtValue::Str(x), "payload"@); }
    assert(spec_lookup(e0, "payload"@) is None);
    assert(dec_opt_str(e2, "payload"@) == Some(v.1));
    assert(e2 == CustomAction::spec_to_entries(v));
}

/// Build a `run_command` event from a macro template substituted with input values.
#[derive(Debug, Clone, PartialEq)]
pub struct DynamicRunCommandAction {
    pub template: String,
}

impl DeepView for DynamicRunCommandAction {
    type V = Seq<char>;

    open spec fn deep_view(&self) -> Self::V {
        self.template@
    }
}

impl DynamicRunCommandAction {
    /// The entries of the compound that stands for a value: one per field, in order, with absent
    /// optional fields left out.
    pub open spec fn spec_to_entries(v: <DynamicRunCommandAction as DeepView>::V) -> Seq<(Seq<char>, NbtValue)> {
        let e0 = Seq::<(Seq<char>, NbtValue)>::empty();
        let e1 = spec_insert(e0, "template"@, NbtValue::Str(v));
        e1
    }

    /// The value that compound entries stand for, if every field is there with its type.
    pub open spec fn spec_from_entries(es: Seq<(Seq<char>, NbtValue)>) -> Option<<DynamicRunCommandAction as DeepView>::V> {
        match dec_str(es, "template"@) {
            Some(x0) =>
                Some(x0),
            None => None,
        }
    }

    pub fn new(template: String) -> (r: Self)
        ensures
            r == (DynamicRunCommandAction { template }),
    {
        DynamicRunCommandAction { template }
    }

    /// The compound that stands for this value. Useful for serializing.
    pub fn to_nbt(&self) -> (c: NbtCompound)
        ensures
            c.deep_view() == (None::<Seq<char>>, Self::spec_to_entries(self.deep_view())),
    {
        let mut nbt = NbtCompound::new(None);
        nbt.add("template".to_owned(), NbtTag::Str(self.template.clone()));
        nbt
    }

    /// The value a compound stands for. Useful for deserializing. A field that is missing,
    /// or is not of its type, is refused.
    pub fn from_nbt(nbt: &NbtCompound) -> (r: Result<Self, SerializingErr>)
        ensures
            match Self::spec_from_entries(nbt.deep_view().1) {
                Some(v) => r matches Ok(x) && x.deep_view() == v,
                None => r matches Err(e) && e.kind() == ErrKind::NbtMissingField,
            },
    {
        let name = "template".to_owned();
        let template = match get_str(nbt, &name) {
            Some(x) => x,
            None => return Err(SerializingErr::NbtMissingField(name)),
        };
        Ok(DynamicRunCommandAction { template })
    }
}

/// A DynamicRunCommandAction turned into a compound and back is the same value.
pub proof fn lemma_dynamic_run_command_action_nbt_round_trip(v: <DynamicRunCommandAction as DeepView>::V)
    ensures
        DynamicRunCommandAction::spec_from_entries(DynamicRunCommandAction::spec_to_entries(v)) == Some(v),
{
    reveal_strlit("template");
    assert("template"@.len() == 8);
    let e0 = Seq::<(Seq<char>, NbtValue)>::empty();
    let e1 = spec_insert(e0, "template"@, NbtValue::Str(v));
    lemma_lookup_insert(e0, "template"@, NbtValue::Str(v), "template"@);
    assert(dec_str(e1, "template"@) == Some(v));
    assert(e1 == DynamicRunCommandAction::spec_to_entries(v));
}

} // verus!
