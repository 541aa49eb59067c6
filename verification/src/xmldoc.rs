//! An owned, navigable model of a validated document: the part of the XML
//! tree that the vendor adapters read. A document is a root element with a
//! sequence of record-level nodes; each record carries its immediate child
//! elements as fields (name, attributes, text content).
//!
//! The adapters address a record's fields through a dictionary built from
//! the fields in order, later entries overwriting earlier ones; a field's
//! key is either its element name or the value of its `name` attribute.

use vstd::prelude::*;
use vstd::string::StringExecFns;

use crate::trusted::str_eq;

verus! {

/// One attribute of a field node.
#[derive(Debug)]
pub struct XmlAttr {
    pub key: String,
    pub value: String,
}

pub ghost struct XmlAttrView {
    pub key: Seq<char>,
    pub value: Seq<char>,
}

impl View for XmlAttr {
    type V = XmlAttrView;

    open spec fn view(&self) -> XmlAttrView {
        XmlAttrView { key: self.key@, value: self.value@ }
    }
}

/// One immediate child element of a record node.
#[derive(Debug)]
pub struct FieldNode {
    pub name: String,
    pub attrs: Vec<XmlAttr>,
    pub text: String,
}

#[verifier::ext_equal]
pub ghost struct FieldNodeView {
    pub name: Seq<char>,
    pub attrs: Seq<XmlAttrView>,
    pub text: Seq<char>,
}

impl View for FieldNode {
    type V = FieldNodeView;

    open spec fn view(&self) -> FieldNodeView {
        FieldNodeView {
            name: self.name@,
            attrs: Seq::new(self.attrs@.len(), |i: int| self.attrs@[i]@),
            text: self.text@,
        }
    }
}

/// One record-level node: a child element of the document root.
#[derive(Debug)]
pub struct RecordNode {
    pub name: String,
    pub fields: Vec<FieldNode>,
}

#[verifier::ext_equal]
pub ghost struct RecordNodeView {
    pub name: Seq<char>,
    pub fields: Seq<FieldNodeView>,
}

impl View for RecordNode {
    type V = RecordNodeView;

    open spec fn view(&self) -> RecordNodeView {
        RecordNodeView {
            name: self.name@,
            fields: Seq::new(self.fields@.len(), |i: int| self.fields@[i]@),
        }
    }
}

/// A validated document: the root element's name and its child elements.
#[derive(Debug)]
pub struct XmlDocument {
    pub root_name: String,
    pub records: Vec<RecordNode>,
}

#[verifier::ext_equal]
pub ghost struct XmlDocumentView {
    pub root_name: Seq<char>,
    pub records: Seq<RecordNodeView>,
}

impl View for XmlDocument {
    type V = XmlDocumentView;

    open spec fn view(&self) -> XmlDocumentView {
        XmlDocumentView {
            root_name: self.root_name@,
            records: Seq::new(self.records@.len(), |i: int| self.records@[i]@),
        }
    }
}

/// How a vendor addresses a record's fields: by each child's element name,
/// or by each child's `name` attribute.
#[derive(Clone, Copy, PartialEq, Eq, Structural)]
pub enum Addressing {
    ElementName,
    NameAttribute,
}

/// The value of the first attribute with the given key, if any.
pub open spec fn attr_of(attrs: Seq<XmlAttrView>, key: Seq<char>) -> Option<Seq<char>>
    decreases attrs.len(),
{
    if attrs.len() == 0 {
        None
    } else if attrs[0].key == key {
        Some(attrs[0].value)
    } else {
        attr_of(attrs.drop_first(), key)
    }
}

/// The dictionary key a field contributes under the given addressing mode:
/// its element name, or its `name` attribute (no attribute, no key).
pub open spec fn field_key(f: FieldNodeView, mode: Addressing) -> Option<Seq<char>> {
    match mode {
        Addressing::ElementName => Some(f.name),
        Addressing::NameAttribute => attr_of(f.attrs, "name"@),
    }
}

/// The dictionary built from the fields in order, later entries
/// overwriting earlier ones: a lookup returns the text of the last field
/// whose key equals the one sought.
pub open spec fn dict_get(fields: Seq<FieldNodeView>, mode: Addressing, key: Seq<char>) -> Option<
    Seq<char>,
>
    decreases fields.len(),
{
    if fields.len() == 0 {
        None
    } else if field_key(fields.last(), mode) == Some(key) {
        Some(fields.last().text)
    } else {
        dict_get(fields.drop_last(), mode, key)
    }
}

/// The text under the key, or the empty string: the lenient policy's view
/// of a lookup.
pub open spec fn or_empty(o: Option<Seq<char>>) -> Seq<char> {
    match o {
        Some(v) => v,
        None => Seq::<char>::empty(),
    }
}

/// The same key spelled with every straight apostrophe (U+0027) replaced
/// by the typographic right single quote (U+2019).
pub open spec fn typo_variant(key: Seq<char>) -> Seq<char> {
    Seq::new(key.len(), |i: int| if key[i] == '\'' { '\u{2019}' } else { key[i] })
}

/// A lookup that tolerates apostrophe drift in the source: the straight
/// spelling is tried first, then the typographic one.
pub open spec fn apos_get(fields: Seq<FieldNodeView>, mode: Addressing, key: Seq<char>) -> Option<
    Seq<char>,
> {
    match dict_get(fields, mode, key) {
        Some(v) => Some(v),
        None => dict_get(fields, mode, typo_variant(key)),
    }
}

/// The records with the given element name, in order.
pub open spec fn records_named(recs: Seq<RecordNodeView>, name: Seq<char>) -> Seq<RecordNodeView>
    decreases recs.len(),
{
    if recs.len() == 0 {
        Seq::<RecordNodeView>::empty()
    } else if recs.last().name == name {
        records_named(recs.drop_last(), name).push(recs.last())
    } else {
        records_named(recs.drop_last(), name)
    }
}

/// The message a strict-policy adapter fails with when a required field is
/// absent from a record.
pub open spec fn missing_field_msg(key: Seq<char>) -> Seq<char> {
    "required field is missing: "@ + key
}

/// A field addressed with a typographic right single quote in the source
/// resolves identically to the same field addressed with a straight
/// apostrophe: two records that hold the value under the two spellings of
/// one key give the apostrophe-tolerant lookup the same answer.
pub proof fn lemma_apostrophe_variants_equivalent(
    a: Seq<FieldNodeView>,
    b: Seq<FieldNodeView>,
    mode: Addressing,
    key: Seq<char>,
    v: Seq<char>,
)
    requires
        dict_get(a, mode, key) == Some(v),
        dict_get(b, mode, key) is None,
        dict_get(b, mode, typo_variant(key)) == Some(v),
    ensures
        apos_get(a, mode, key) == Some(v),
        apos_get(b, mode, key) == Some(v),
        apos_get(a, mode, key) == apos_get(b, mode, key),
{
}

impl FieldNode {
    /// The value of this field's first attribute with the given key.
    pub fn get_attribute(&self, key: &str) -> (r: Option<String>)
        ensures
            match r {
                Some(v) => attr_of(self@.attrs, key@) == Some(v@),
                None => attr_of(self@.attrs, key@) is None,
            },
    {
        let mut i: usize = 0;
        proof {
            assert(self@.attrs.skip(0) =~= self@.attrs);
        }
        while i < self.attrs.len()
            invariant
                i <= self.attrs.len(),
                attr_of(self@.attrs, key@) == attr_of(self@.attrs.skip(i as int), key@),
            decreases self.attrs.len() - i,
        {
            proof {
                assert(self@.attrs.skip(i as int).drop_first() =~= self@.attrs.skip(i + 1));
            }
            if str_eq(self.attrs[i].key.as_str(), key) {
                return Some(self.attrs[i].value.clone());
            }
            i = i + 1;
        }
        proof {
            assert(self@.attrs.skip(self.attrs@.len() as int) =~= Seq::<XmlAttrView>::empty());
        }
        None
    }

    /// The dictionary key this field contributes under the given mode.
    pub fn key(&self, mode: Addressing) -> (r: Option<String>)
        ensures
            match r {
                Some(k) => field_key(self@, mode) == Some(k@),
                None => field_key(self@, mode) is None,
            },
    {
        match mode {
            Addressing::ElementName => Some(self.name.clone()),
            Addressing::NameAttribute => self.get_attribute("name"),
        }
    }
}

/// Looks the key up in the record's field dictionary: the text of the last
/// field keyed by it, if any.
pub fn lookup(fields: &Vec<FieldNode>, mode: Addressing, key: &str) -> (r: Option<String>)
    ensures
        ({
            let d = dict_get(fields_view(fields@), mode, key@);
            match r {
                Some(v) => d == Some(v@),
                None => d is None,
            }
        }),
{
    let ghost fv = fields_view(fields@);
    proof {
        assert(fv.take(fields.len() as int) =~= fv);
    }
    let mut i: usize = fields.len();
    while i > 0
        invariant
            i <= fields.len(),
            fv == fields_view(fields@),
            fv.len() == fields.len(),
            dict_get(fv, mode, key@) == dict_get(fv.take(i as int), mode, key@),
        decreases i,
    {
        i = i - 1;
        proof {
            assert(fv.take(i as int + 1).last() == fv[i as int]);
            assert(fv.take(i as int + 1).drop_last() =~= fv.take(i as int));
            assert(fv[i as int] == fields@[i as int]@);
        }
        let k = fields[i].key(mode);
        match k {
            Some(k) => {
                if str_eq(k.as_str(), key) {
                    proof {
                        assert(field_key(fv[i as int], mode) == Some(key@));
                        assert(dict_get(fv.take(i as int + 1), mode, key@) == Some(
                            fv[i as int].text,
                        ));
                    }
                    return Some(fields[i].text.clone());
                }
                proof {
                    assert(field_key(fv.take(i as int + 1).last(), mode) != Some(key@));
                }
            },
            None => {
                proof {
                    assert(field_key(fv.take(i as int + 1).last(), mode) != Some(key@));
                }
            },
        }
    }
    proof {
        assert(fv.take(0) =~= Seq::<FieldNodeView>::empty());
    }
    None
}

/// The view of a field sequence, element by element.
pub open spec fn fields_view(s: Seq<FieldNode>) -> Seq<FieldNodeView> {
    Seq::new(s.len(), |i: int| s[i]@)
}

/// A lenient lookup: the text under the key, or the empty string when the
/// key is absent. A missing optional field never fails extraction.
pub fn lookup_optional(fields: &Vec<FieldNode>, mode: Addressing, key: &str) -> (r: String)
    ensures
        r@ == or_empty(dict_get(fields_view(fields@), mode, key@)),
{
    match lookup(fields, mode, key) {
        Some(v) => v,
        None => String::new(),
    }
}

/// A strict lookup: the text under the key, or an extraction failure
/// naming the key when it is absent.
pub fn lookup_required(fields: &Vec<FieldNode>, mode: Addressing, key: &str) -> (r: Result<
    String,
    String,
>)
    ensures
        ({
            let d = dict_get(fields_view(fields@), mode, key@);
            match r {
                Ok(v) => d == Some(v@),
                Err(m) => d is None && m@ == missing_field_msg(key@),
            }
        }),
{
    match lookup(fields, mode, key) {
        Some(v) => Ok(v),
        None => Err("required field is missing: ".to_owned().concat(key)),
    }
}

/// A strict lookup that checks both apostrophe spellings of the key: the
/// straight one as written, then `alt`, the same key with every straight
/// apostrophe replaced by the typographic right single quote.
pub fn lookup_required_apos(
    fields: &Vec<FieldNode>,
    mode: Addressing,
    key: &str,
    alt: &str,
) -> (r: Result<String, String>)
    requires
        alt@ == typo_variant(key@),
    ensures
        ({
            let d = apos_get(fields_view(fields@), mode, key@);
            match r {
                Ok(v) => d == Some(v@),
                Err(m) => d is None && m@ == missing_field_msg(key@),
            }
        }),
{
    match lookup(fields, mode, key) {
        Some(v) => Ok(v),
        None => match lookup(fields, mode, alt) {
            Some(v) => Ok(v),
            None => Err("required field is missing: ".to_owned().concat(key)),
        },
    }
}

} // verus!
