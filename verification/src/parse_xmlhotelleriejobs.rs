//! The hotelleriejobs dialect: element-addressed fields, lenient policy
//! throughout, and per-language merging. A record's title, description and
//! requirements nodes each carry a `lang` attribute (defaulting to "en"
//! when absent); the three collections are merged, in that order, into
//! translations keyed by the language tag — a node updates only its own
//! field of the matching entry, or opens a new entry with the other fields
//! empty. Records are the root's child elements named `job`.

use vstd::prelude::*;

use crate::common::{
    errors_view, Company, CompanyView, Job, JobView, ParseError, Translation, TranslationView,
    XMLError, XMLErrorView,
};
use crate::trusted::str_eq;
use crate::validate::validate_against_xsd;
use crate::xmldoc::{
    attr_of, dict_get, fields_view, or_empty, records_named, Addressing, FieldNode, FieldNodeView,
    RecordNode, RecordNodeView, XmlDocument,
};

verus! {

/// How this dialect addresses a record's fields.
pub open spec fn mode() -> Addressing {
    Addressing::ElementName
}

/// Which of a translation's three content fields a source node fills.
#[derive(Clone, Copy)]
pub enum Slot {
    Title,
    Description,
    Requirements,
}

/// The language tag of a source node: its `lang` attribute, or "en" when
/// the attribute is absent.
pub open spec fn lang_of(f: FieldNodeView) -> Seq<char> {
    match attr_of(f.attrs, "lang"@) {
        Some(l) => l,
        None => "en"@,
    }
}

/// The translation with one content field replaced; the language and the
/// other fields stand unchanged.
pub open spec fn set_slot(t: TranslationView, slot: Slot, content: Seq<char>) -> TranslationView {
    match slot {
        Slot::Title => TranslationView { title: content, ..t },
        Slot::Description => TranslationView { description: content, ..t },
        Slot::Requirements => TranslationView { requirements: content, ..t },
    }
}

/// A translation opened on first occurrence of a language: only the given
/// field is populated, the others are empty.
pub open spec fn fresh_slot(lang: Seq<char>, slot: Slot, content: Seq<char>) -> TranslationView {
    set_slot(
        TranslationView {
            language: lang,
            title: Seq::<char>::empty(),
            description: Seq::<char>::empty(),
            requirements: Seq::<char>::empty(),
        },
        slot,
        content,
    )
}

/// The index of the first translation with the given language, or -1 when
/// none carries it.
pub open spec fn lang_index(ts: Seq<TranslationView>, lang: Seq<char>) -> int
    decreases ts.len(),
{
    if ts.len() == 0 {
        -1
    } else if ts[0].language == lang {
        0
    } else {
        let r = lang_index(ts.drop_first(), lang);
        if r == -1 {
            -1
        } else {
            r + 1
        }
    }
}

/// One merge step: the node's content lands in the matching translation's
/// field, or a new translation is opened — never a duplicate language.
pub open spec fn merge_one(
    ts: Seq<TranslationView>,
    lang: Seq<char>,
    slot: Slot,
    content: Seq<char>,
) -> Seq<TranslationView> {
    let i = lang_index(ts, lang);
    if i >= 0 {
        ts.update(i, set_slot(ts[i], slot, content))
    } else {
        ts.push(fresh_slot(lang, slot, content))
    }
}

/// The fields with the given element name, in document order.
pub open spec fn fields_named(fs: Seq<FieldNodeView>, name: Seq<char>) -> Seq<FieldNodeView>
    decreases fs.len(),
{
    if fs.len() == 0 {
        Seq::<FieldNodeView>::empty()
    } else if fs.last().name == name {
        fields_named(fs.drop_last(), name).push(fs.last())
    } else {
        fields_named(fs.drop_last(), name)
    }
}

/// One whole collection merged into the translations, node by node, in
/// document order.
pub open spec fn merge_nodes(
    ts: Seq<TranslationView>,
    nodes: Seq<FieldNodeView>,
    slot: Slot,
) -> Seq<TranslationView>
    decreases nodes.len(),
{
    if nodes.len() == 0 {
        ts
    } else {
        merge_one(
            merge_nodes(ts, nodes.drop_last(), slot),
            lang_of(nodes.last()),
            slot,
            nodes.last().text,
        )
    }
}

/// The translations of one record: the title nodes merged first, then the
/// description nodes, then the requirements nodes.
pub open spec fn translations_of(r: RecordNodeView) -> Seq<TranslationView> {
    merge_nodes(
        merge_nodes(
            merge_nodes(
                Seq::<TranslationView>::empty(),
                fields_named(r.fields, "title"@),
                Slot::Title,
            ),
            fields_named(r.fields, "description"@),
            Slot::Description,
        ),
        fields_named(r.fields, "requirements"@),
        Slot::Requirements,
    )
}

/// The canonical record a hotelleriejobs record maps to: every plain field
/// is optional, the application method comes from the record itself, and
/// the translations are the per-language merge of the three collections.
pub open spec fn job_of(r: RecordNodeView) -> JobView {
    let f = r.fields;
    JobView {
        id: or_empty(dict_get(f, mode(), "unique_id"@)),
        schedule: or_empty(dict_get(f, mode(), "schedule"@)),
        category: or_empty(dict_get(f, mode(), "category"@)),
        city: or_empty(dict_get(f, mode(), "city"@)),
        province: or_empty(dict_get(f, mode(), "province"@)),
        application_method: or_empty(dict_get(f, mode(), "application_method"@)),
        application_destination: or_empty(dict_get(f, mode(), "application_destination"@)),
        company: CompanyView {
            id: or_empty(dict_get(f, mode(), "company_id"@)),
            name: or_empty(dict_get(f, mode(), "company"@)),
            city: or_empty(dict_get(f, mode(), "company_city"@)),
            postal_code: or_empty(dict_get(f, mode(), "company_postal_code"@)),
            logo_url: or_empty(dict_get(f, mode(), "company_logo_url"@)),
        },
        translations: translations_of(r),
    }
}

/// The view of a translation sequence, element by element.
pub open spec fn translations_view(s: Seq<Translation>) -> Seq<TranslationView> {
    Seq::new(s.len(), |i: int| s[i]@)
}

/// What `lang_index` finds: a position in range holding the language, with
/// no earlier one holding it; or -1 when no position holds it.
pub proof fn lemma_lang_index_props(ts: Seq<TranslationView>, lang: Seq<char>)
    ensures
        -1 <= lang_index(ts, lang) < ts.len(),
        lang_index(ts, lang) >= 0 ==> ts[lang_index(ts, lang)].language == lang,
        forall|j: int| 0 <= j < lang_index(ts, lang) ==> ts[j].language != lang,
        lang_index(ts, lang) == -1 ==> forall|j: int|
            0 <= j < ts.len() ==> ts[j].language != lang,
    decreases ts.len(),
{
    if ts.len() == 0 {
    } else if ts[0].language == lang {
    } else {
        let tail = ts.drop_first();
        lemma_lang_index_props(tail, lang);
        let r = lang_index(tail, lang);
        if r == -1 {
            assert(lang_index(ts, lang) == -1);
            assert forall|j: int| 0 <= j < ts.len() implies ts[j].language != lang by {
                if j > 0 {
                    assert(tail[j - 1] == ts[j]);
                }
            }
        } else {
            assert(lang_index(ts, lang) == r + 1);
            assert(tail[r] == ts[r + 1]);
            assert forall|j: int| 0 <= j < lang_index(ts, lang) implies ts[j].language != lang by {
                if j > 0 {
                    assert(tail[j - 1] == ts[j]);
                }
            }
        }
    }
}

/// Finds the first translation carrying the language, if any.
fn find_language(ts: &Vec<Translation>, lang: &str) -> (r: Option<usize>)
    ensures
        match r {
            Some(i) => i < ts@.len() && lang_index(translations_view(ts@), lang@) == i,
            None => lang_index(translations_view(ts@), lang@) == -1,
        },
{
    let ghost tv = translations_view(ts@);
    proof {
        lemma_lang_index_props(tv, lang@);
    }
    let mut i: usize = 0;
    while i < ts.len()
        invariant
            i <= ts.len(),
            tv == translations_view(ts@),
            tv.len() == ts.len(),
            -1 <= lang_index(tv, lang@) < tv.len(),
            lang_index(tv, lang@) >= 0 ==> tv[lang_index(tv, lang@)].language == lang@,
            forall|j: int| 0 <= j < lang_index(tv, lang@) ==> tv[j].language != lang@,
            lang_index(tv, lang@) == -1 ==> forall|j: int|
                0 <= j < tv.len() ==> tv[j].language != lang@,
            forall|j: int| 0 <= j < i ==> tv[j].language != lang@,
        decreases ts.len() - i,
    {
        if str_eq(ts[i].language.as_str(), lang) {
            proof {
                assert(tv[i as int].language == lang@);
                assert(lang_index(tv, lang@) != -1);
                assert(lang_index(tv, lang@) <= i);
                assert(lang_index(tv, lang@) >= i);
            }
            return Some(i);
        }
        i = i + 1;
    }
    proof {
        if lang_index(tv, lang@) >= 0 {
            assert(tv[lang_index(tv, lang@)].language == lang@);
            assert(false);
        }
    }
    None
}

/// One merge step on the building translations, as `merge_one` describes.
fn merge_step(ts: &mut Vec<Translation>, lang: String, slot: Slot, content: String)
    ensures
        translations_view(final(ts)@) == merge_one(
            translations_view(old(ts)@),
            lang@,
            slot,
            content@,
        ),
{
    let ghost tv0 = translations_view(old(ts)@);
    let ghost glang = lang@;
    let ghost gcontent = content@;
    match find_language(ts, lang.as_str()) {
        Some(i) => {
            let ghost gi = i as int;
            let mut t = ts.remove(i);
            match slot {
                Slot::Title => {
                    t.title = content;
                },
                Slot::Description => {
                    t.description = content;
                },
                Slot::Requirements => {
                    t.requirements = content;
                },
            }
            proof {
                assert(t@ =~= set_slot(tv0[gi], slot, gcontent));
            }
            ts.insert(i, t);
            proof {
                assert(translations_view(ts@) =~= tv0.update(gi, set_slot(tv0[gi], slot, content@)));
            }
        },
        None => {
            let mut t = Translation {
                language: lang,
                title: String::new(),
                description: String::new(),
                requirements: String::new(),
            };
            match slot {
                Slot::Title => {
                    t.title = content;
                },
                Slot::Description => {
                    t.description = content;
                },
                Slot::Requirements => {
                    t.requirements = content;
                },
            }
            proof {
                assert(t@ =~= fresh_slot(glang, slot, gcontent));
            }
            ts.push(t);
            proof {
                assert(translations_view(ts@) =~= tv0.push(fresh_slot(glang, slot, gcontent)));
            }
        },
    }
}

/// Merges every field with the given element name into the translations,
/// in document order, as `merge_nodes` describes.
fn merge_pass(ts: &mut Vec<Translation>, fields: &Vec<FieldNode>, name: &str, slot: Slot)
    ensures
        translations_view(final(ts)@) == merge_nodes(
            translations_view(old(ts)@),
            fields_named(fields_view(fields@), name@),
            slot,
        ),
{
    let ghost tv0 = translations_view(old(ts)@);
    let ghost fv = fields_view(fields@);
    proof {
        assert(fv.take(0) =~= Seq::<FieldNodeView>::empty());
    }
    let mut i: usize = 0;
    while i < fields.len()
        invariant
            i <= fields.len(),
            fv == fields_view(fields@),
            fv.len() == fields.len(),
            translations_view(ts@) == merge_nodes(tv0, fields_named(fv.take(i as int), name@), slot),
        decreases fields.len() - i,
    {
        proof {
            assert(fv.take(i as int + 1).last() == fv[i as int]);
            assert(fv.take(i as int + 1).drop_last() =~= fv.take(i as int));
            assert(fv[i as int] == fields@[i as int]@);
        }
        let field = &fields[i];
        if str_eq(field.name.as_str(), name) {
            proof {
                assert(fields_named(fv.take(i as int + 1), name@) == fields_named(
                    fv.take(i as int),
                    name@,
                ).push(fv[i as int]));
                assert(fields_named(fv.take(i as int), name@).push(fv[i as int]).drop_last()
                    =~= fields_named(fv.take(i as int), name@));
            }
            let lang = match field.get_attribute("lang") {
                Some(l) => l,
                None => "en".to_owned(),
            };
            proof {
                assert(lang@ == lang_of(fv[i as int]));
            }
            merge_step(ts, lang, slot, field.text.clone());
        }
        i = i + 1;
    }
    proof {
        assert(fv.take(fields.len() as int) =~= fv);
    }
}

/// Extracts one record under the lenient policy: never fails, absent
/// fields come out empty, translations merged per language.
fn extract_record(record: &RecordNode) -> (job: Job)
    ensures
        job@ == job_of(record@),
{
    let f = &record.fields;
    let mut translations: Vec<Translation> = Vec::new();
    proof {
        assert(translations_view(translations@) =~= Seq::<TranslationView>::empty());
    }
    merge_pass(&mut translations, f, "title", Slot::Title);
    merge_pass(&mut translations, f, "description", Slot::Description);
    merge_pass(&mut translations, f, "requirements", Slot::Requirements);
    let job = Job {
        id: crate::xmldoc::lookup_optional(f, Addressing::ElementName, "unique_id"),
        schedule: crate::xmldoc::lookup_optional(f, Addressing::ElementName, "schedule"),
        category: crate::xmldoc::lookup_optional(f, Addressing::ElementName, "category"),
        city: crate::xmldoc::lookup_optional(f, Addressing::ElementName, "city"),
        province: crate::xmldoc::lookup_optional(f, Addressing::ElementName, "province"),
        application_method: crate::xmldoc::lookup_optional(
            f,
            Addressing::ElementName,
            "application_method",
        ),
        application_destination: crate::xmldoc::lookup_optional(
            f,
            Addressing::ElementName,
            "application_destination",
        ),
        company: Company {
            id: crate::xmldoc::lookup_optional(f, Addressing::ElementName, "company_id"),
            name: crate::xmldoc::lookup_optional(f, Addressing::ElementName, "company"),
            city: crate::xmldoc::lookup_optional(f, Addressing::ElementName, "company_city"),
            postal_code: crate::xmldoc::lookup_optional(
                f,
                Addressing::ElementName,
                "company_postal_code",
            ),
            logo_url: crate::xmldoc::lookup_optional(
                f,
                Addressing::ElementName,
                "company_logo_url",
            ),
        },
        translations,
    };
    proof {
        assert(job@ =~~= job_of(record@));
    }
    job
}

/// Extracts every record named `job`, in order. Under the lenient policy
/// extraction always succeeds.
pub fn parse_into_jobs(document: &XmlDocument) -> (r: Result<Vec<Job>, String>)
    ensures
        r is Ok,
        ({
            let sel = records_named(document@.records, "job"@);
            match r {
                Ok(jobs) => jobs@.len() == sel.len() && (forall|i: int|
                    0 <= i < sel.len() ==> (#[trigger] jobs@[i])@ == job_of(sel[i])),
                Err(_) => false,
            }
        }),
{
    let ghost recs = document@.records;
    let mut jobs: Vec<Job> = Vec::new();
    let mut i: usize = 0;
    proof {
        assert(recs.take(0) =~= Seq::<RecordNodeView>::empty());
    }
    while i < document.records.len()
        invariant
            i <= document.records.len(),
            recs == document@.records,
            recs.len() == document.records.len(),
            ({
                let sel = records_named(recs.take(i as int), "job"@);
                jobs@.len() == sel.len() && (forall|j: int|
                    0 <= j < sel.len() ==> (#[trigger] jobs@[j])@ == job_of(sel[j]))
            }),
        decreases document.records.len() - i,
    {
        proof {
            assert(document.records@[i as int]@ == recs[i as int]);
            assert(recs.take(i as int + 1).last() == recs[i as int]);
            assert(recs.take(i as int + 1).drop_last() =~= recs.take(i as int));
        }
        let record = &document.records[i];
        if str_eq(record.name.as_str(), "job") {
            jobs.push(extract_record(record));
        }
        i = i + 1;
    }
    proof {
        assert(recs.take(document.records.len() as int) =~= recs);
    }
    Ok(jobs)
}

/// Carries the validator's outcome through extraction. A validation
/// failure passes its diagnostics on under the fixed message; from a
/// validated document, extraction never fails and never reports a schema
/// diagnostic — validation and extraction are independent passes.
pub fn parse_validated(outcome: Result<XmlDocument, Vec<XMLError>>) -> (r: Result<
    Vec<Job>,
    ParseError,
>)
    ensures
        ({
            match outcome {
                Ok(document) => {
                    let sel = records_named(document@.records, "job"@);
                    match r {
                        Ok(jobs) => jobs@.len() == sel.len() && (forall|i: int|
                            0 <= i < sel.len() ==> (#[trigger] jobs@[i])@ == job_of(sel[i])),
                        Err(_) => false,
                    }
                },
                Err(errors) => match r {
                    Ok(_) => false,
                    Err(e) => e@.message == "File is not valid"@ && e@.xml_errors == errors_view(
                        errors@,
                    ),
                },
            }
        }),
{
    match outcome {
        Ok(document) => match parse_into_jobs(&document) {
            Ok(jobs) => Ok(jobs),
            Err(m) => Err(ParseError { message: m, xml_errors: Vec::new() }),
        },
        Err(errors) => {
            let e = ParseError { message: "File is not valid".to_owned(), xml_errors: errors };
            proof {
                assert(e@.xml_errors =~= errors_view(outcome->Err_0@));
            }
            Err(e)
        },
    }
}

/// Validates the bytes against the hotelleriejobs grammar, then extracts.
/// Every job of a success carries at most one translation per distinct
/// language tag. The only failure is a validation failure: its message is
/// the fixed one and it always carries diagnostics.
pub fn parse(file: &Vec<u8>, xsd: &Vec<u8>) -> (r: Result<Vec<Job>, ParseError>)
    ensures
        match r {
            Ok(jobs) => forall|i: int|
                0 <= i < jobs@.len() ==> distinct_languages((#[trigger] jobs@[i])@.translations),
            Err(e) => e@.message == "File is not valid"@ && e@.message.len() > 0
                && e@.xml_errors.len() >= 1,
        },
{
    let outcome = validate_against_xsd(file, xsd);
    let ghost gout = outcome;
    let r = parse_validated(outcome);
    proof {
        reveal_strlit("File is not valid");
        assert("File is not valid"@.len() == 17);
        if gout is Ok && r is Ok {
            let sel = records_named(gout->Ok_0@.records, "job"@);
            let jobs = r->Ok_0;
            assert forall|i: int|
                0 <= i < jobs@.len() implies distinct_languages(
                (#[trigger] jobs@[i])@.translations,
            ) by {
                assert(jobs@[i]@ == job_of(sel[i]));
                lemma_translations_distinct(sel[i]);
            }
        }
    }
    r
}

/// No two translations of a merge share a language tag.
pub open spec fn distinct_languages(ts: Seq<TranslationView>) -> bool {
    forall|i: int, j: int|
        0 <= i < j < ts.len() ==> ts[i].language != ts[j].language
}

/// A merge step never duplicates a language: it updates the matching
/// entry, or opens an entry for a language not yet present.
pub proof fn lemma_merge_one_distinct(
    ts: Seq<TranslationView>,
    lang: Seq<char>,
    slot: Slot,
    content: Seq<char>,
)
    requires
        distinct_languages(ts),
    ensures
        distinct_languages(merge_one(ts, lang, slot, content)),
{
    lemma_lang_index_props(ts, lang);
    let i = lang_index(ts, lang);
    if i >= 0 {
        let r = ts.update(i, set_slot(ts[i], slot, content));
        assert(forall|k: int| 0 <= k < r.len() ==> r[k].language == ts[k].language);
    } else {
        let r = ts.push(fresh_slot(lang, slot, content));
        assert(forall|k: int| 0 <= k < ts.len() ==> r[k].language == ts[k].language);
        assert(r[ts.len() as int].language == lang);
    }
}

/// A whole collection merged in keeps the languages distinct.
pub proof fn lemma_merge_nodes_distinct(
    ts: Seq<TranslationView>,
    nodes: Seq<FieldNodeView>,
    slot: Slot,
)
    requires
        distinct_languages(ts),
    ensures
        distinct_languages(merge_nodes(ts, nodes, slot)),
    decreases nodes.len(),
{
    if nodes.len() == 0 {
    } else {
        lemma_merge_nodes_distinct(ts, nodes.drop_last(), slot);
        lemma_merge_one_distinct(
            merge_nodes(ts, nodes.drop_last(), slot),
            lang_of(nodes.last()),
            slot,
            nodes.last().text,
        );
    }
}

/// Merging never drops an entry, and merging at least one node leaves at
/// least one entry.
pub proof fn lemma_merge_nodes_len(ts: Seq<TranslationView>, nodes: Seq<FieldNodeView>, slot: Slot)
    ensures
        merge_nodes(ts, nodes, slot).len() >= ts.len(),
        nodes.len() > 0 ==> merge_nodes(ts, nodes, slot).len() >= 1,
    decreases nodes.len(),
{
    if nodes.len() == 0 {
    } else {
        lemma_merge_nodes_len(ts, nodes.drop_last(), slot);
        let before = merge_nodes(ts, nodes.drop_last(), slot);
        lemma_lang_index_props(before, lang_of(nodes.last()));
    }
}

/// A record's translations are empty exactly when the record carries no
/// title, description or requirements node: only language-tagged content
/// opens an entry.
pub proof fn lemma_translations_empty_iff_no_content(r: RecordNodeView)
    ensures
        translations_of(r).len() == 0 <==> (fields_named(r.fields, "title"@).len() == 0
            && fields_named(r.fields, "description"@).len() == 0 && fields_named(
            r.fields,
            "requirements"@,
        ).len() == 0),
{
    let t0 = merge_nodes(
        Seq::<TranslationView>::empty(),
        fields_named(r.fields, "title"@),
        Slot::Title,
    );
    let t1 = merge_nodes(t0, fields_named(r.fields, "description"@), Slot::Description);
    lemma_merge_nodes_len(
        Seq::<TranslationView>::empty(),
        fields_named(r.fields, "title"@),
        Slot::Title,
    );
    lemma_merge_nodes_len(t0, fields_named(r.fields, "description"@), Slot::Description);
    lemma_merge_nodes_len(t1, fields_named(r.fields, "requirements"@), Slot::Requirements);
}

/// The merge invariant of this dialect: a record's translations carry at
/// most one entry per distinct language tag — the merge updates only the
/// matching entry and opens a new one on first occurrence, never a
/// duplicate.
pub proof fn lemma_translations_distinct(r: RecordNodeView)
    ensures
        distinct_languages(translations_of(r)),
{
    lemma_merge_nodes_distinct(
        Seq::<TranslationView>::empty(),
        fields_named(r.fields, "title"@),
        Slot::Title,
    );
    lemma_merge_nodes_distinct(
        merge_nodes(Seq::<TranslationView>::empty(), fields_named(r.fields, "title"@), Slot::Title),
        fields_named(r.fields, "description"@),
        Slot::Description,
    );
    lemma_merge_nodes_distinct(
        merge_nodes(
            merge_nodes(
                Seq::<TranslationView>::empty(),
                fields_named(r.fields, "title"@),
                Slot::Title,
            ),
            fields_named(r.fields, "description"@),
            Slot::Description,
        ),
        fields_named(r.fields, "requirements"@),
        Slot::Requirements,
    );
}

} // verus!
