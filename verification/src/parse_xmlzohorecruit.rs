//! The zohorecruit dialect: attribute-addressed fields (each child is
//! keyed by its `name` attribute), strict required-field policy but for
//! the application URL, a single French edition per record. Two of its
//! field names carry an apostrophe, which source encoding drift may turn
//! into a typographic right single quote: those lookups check both
//! spellings before treating the key as absent.

use vstd::prelude::*;

use crate::common::{
    errors_view, Company, CompanyView, Job, JobView, ParseError, Translation, TranslationView,
    XMLError, XMLErrorView,
};
use crate::validate::validate_against_xsd;
use crate::xmldoc::{
    apos_get, dict_get, missing_field_msg, or_empty, typo_variant, Addressing, FieldNodeView,
    RecordNodeView, XmlDocument,
};

verus! {

/// How this dialect addresses a record's fields.
pub open spec fn mode() -> Addressing {
    Addressing::NameAttribute
}

/// The first required field, in extraction order, that the record's
/// dictionary misses — None when the record is complete. The application
/// URL is the one lenient field; the apostrophe-carrying keys are looked
/// up under both spellings.
pub open spec fn required_missing(f: Seq<FieldNodeView>) -> Option<Seq<char>> {
    if dict_get(f, mode(), "Reference Number"@) is None {
        Some("Reference Number"@)
    } else if apos_get(f, mode(), "Type d'emploi"@) is None {
        Some("Type d'emploi"@)
    } else if apos_get(f, mode(), "Secteur d'activité"@) is None {
        Some("Secteur d'activité"@)
    } else if dict_get(f, mode(), "Ville"@) is None {
        Some("Ville"@)
    } else if dict_get(f, mode(), "État/Province"@) is None {
        Some("État/Province"@)
    } else if dict_get(f, mode(), "Résidence"@) is None {
        Some("Résidence"@)
    } else if dict_get(f, mode(), "Titre de la publication"@) is None {
        Some("Titre de la publication"@)
    } else if dict_get(f, mode(), "Description du poste"@) is None {
        Some("Description du poste"@)
    } else {
        None
    }
}

/// The canonical record a complete zohorecruit record maps to: the
/// application method is the constant "url", the destination degrades to
/// the empty string when absent, and the single translation is tagged
/// "fr" with empty requirements.
pub open spec fn job_of(r: RecordNodeView) -> JobView {
    let f = r.fields;
    JobView {
        id: or_empty(dict_get(f, mode(), "Reference Number"@)),
        schedule: or_empty(apos_get(f, mode(), "Type d'emploi"@)),
        category: or_empty(apos_get(f, mode(), "Secteur d'activité"@)),
        city: or_empty(dict_get(f, mode(), "Ville"@)),
        province: or_empty(dict_get(f, mode(), "État/Province"@)),
        application_method: "url"@,
        application_destination: or_empty(dict_get(f, mode(), "url"@)),
        company: CompanyView {
            name: or_empty(dict_get(f, mode(), "Résidence"@)),
            ..CompanyView::empty()
        },
        translations: seq![
            TranslationView {
                language: "fr"@,
                title: or_empty(dict_get(f, mode(), "Titre de la publication"@)),
                description: or_empty(dict_get(f, mode(), "Description du poste"@)),
                requirements: Seq::<char>::empty(),
            },
        ],
    }
}

/// Extracts one record under the strict policy: the canonical job, or a
/// failure naming the first missing required field.
fn extract_record(record: &crate::xmldoc::RecordNode) -> (r: Result<Job, String>)
    ensures
        match r {
            Ok(job) => required_missing(record@.fields) is None && job@ == job_of(record@),
            Err(m) => required_missing(record@.fields) is Some && m@ == missing_field_msg(
                or_empty(required_missing(record@.fields)),
            ),
        },
{
    let f = &record.fields;
    let id = match crate::xmldoc::lookup_required(f, Addressing::NameAttribute, "Reference Number") {
        Ok(v) => v,
        Err(m) => {
            return Err(m);
        },
    };
    proof {
        reveal_strlit("Type d'emploi");
        reveal_strlit("Type d’emploi");
        assert("Type d’emploi"@ =~= typo_variant("Type d'emploi"@));
        reveal_strlit("Secteur d'activité");
        reveal_strlit("Secteur d’activité");
        assert("Secteur d’activité"@ =~= typo_variant("Secteur d'activité"@));
    }
    let schedule = match crate::xmldoc::lookup_required_apos(
        f,
        Addressing::NameAttribute,
        "Type d'emploi",
        "Type d’emploi",
    ) {
        Ok(v) => v,
        Err(m) => {
            return Err(m);
        },
    };
    let category = match crate::xmldoc::lookup_required_apos(
        f,
        Addressing::NameAttribute,
        "Secteur d'activité",
        "Secteur d’activité",
    ) {
        Ok(v) => v,
        Err(m) => {
            return Err(m);
        },
    };
    let city = match crate::xmldoc::lookup_required(f, Addressing::NameAttribute, "Ville") {
        Ok(v) => v,
        Err(m) => {
            return Err(m);
        },
    };
    let province = match crate::xmldoc::lookup_required(f, Addressing::NameAttribute, "État/Province") {
        Ok(v) => v,
        Err(m) => {
            return Err(m);
        },
    };
    let apply_url = crate::xmldoc::lookup_optional(f, Addressing::NameAttribute, "url");
    let company_name = match crate::xmldoc::lookup_required(f, Addressing::NameAttribute, "Résidence") {
        Ok(v) => v,
        Err(m) => {
            return Err(m);
        },
    };
    let title = match crate::xmldoc::lookup_required(
        f,
        Addressing::NameAttribute,
        "Titre de la publication",
    ) {
        Ok(v) => v,
        Err(m) => {
            return Err(m);
        },
    };
    let description = match crate::xmldoc::lookup_required(
        f,
        Addressing::NameAttribute,
        "Description du poste",
    ) {
        Ok(v) => v,
        Err(m) => {
            return Err(m);
        },
    };

    let mut translations: Vec<Translation> = Vec::new();
    translations.push(
        Translation {
            language: "fr".to_owned(),
            title,
            description,
            requirements: String::new(),
        },
    );
    let job = Job {
        id,
        schedule,
        category,
        city,
        province,
        application_method: "url".to_owned(),
        application_destination: apply_url,
        company: Company {
            id: String::new(),
            name: company_name,
            city: String::new(),
            postal_code: String::new(),
            logo_url: String::new(),
        },
        translations,
    };
    proof {
        assert(job@ =~~= job_of(record@));
    }
    Ok(job)
}

/// Extracts every record of the validated document, in order, failing at
/// the first record with a missing required field.
pub fn parse_into_jobs(document: &XmlDocument) -> (r: Result<Vec<Job>, String>)
    ensures
        ({
            let recs = document@.records;
            match r {
                Ok(jobs) => jobs@.len() == recs.len() && (forall|i: int|
                    0 <= i < recs.len() ==> required_missing(#[trigger] recs[i].fields) is None)
                    && (forall|i: int|
                    0 <= i < recs.len() ==> (#[trigger] jobs@[i])@ == job_of(recs[i])),
                Err(m) => exists|i: int|
                    0 <= i < recs.len() && required_missing(#[trigger] recs[i].fields) is Some
                        && m@ == missing_field_msg(or_empty(required_missing(recs[i].fields))) && (
                    forall|j: int| 0 <= j < i ==> required_missing(#[trigger] recs[j].fields) is None),
            }
        }),
{
    let mut jobs: Vec<Job> = Vec::new();
    let mut i: usize = 0;
    while i < document.records.len()
        invariant
            i <= document.records.len(),
            jobs@.len() == i,
            forall|j: int|
                0 <= j < i ==> required_missing(#[trigger] document@.records[j].fields) is None,
            forall|j: int| 0 <= j < i ==> (#[trigger] jobs@[j])@ == job_of(document@.records[j]),
        decreases document.records.len() - i,
    {
        proof {
            assert(document.records@[i as int]@ == document@.records[i as int]);
        }
        match extract_record(&document.records[i]) {
            Ok(job) => {
                jobs.push(job);
            },
            Err(m) => {
                proof {
                    assert(required_missing(document@.records[i as int].fields) is Some);
                }
                return Err(m);
            },
        }
        i = i + 1;
    }
    Ok(jobs)
}

/// Carries the validator's outcome through extraction. A validation
/// failure passes its diagnostics on under the fixed message; from a
/// validated document, extraction reports at most a message and never a
/// schema diagnostic — validation and extraction are independent passes.
pub fn parse_validated(outcome: Result<XmlDocument, Vec<XMLError>>) -> (r: Result<
    Vec<Job>,
    ParseError,
>)
    ensures
        ({
            match outcome {
                Ok(document) => {
                    let recs = document@.records;
                    match r {
                        Ok(jobs) => jobs@.len() == recs.len() && (forall|i: int|
                            0 <= i < recs.len() ==> required_missing(
                                #[trigger] recs[i].fields,
                            ) is None) && (forall|i: int|
                            0 <= i < recs.len() ==> (#[trigger] jobs@[i])@ == job_of(recs[i])),
                        Err(e) => e@.xml_errors.len() == 0 && exists|i: int|
                            0 <= i < recs.len() && required_missing(
                                #[trigger] recs[i].fields,
                            ) is Some && e@.message == missing_field_msg(
                                or_empty(required_missing(recs[i].fields)),
                            ),
                    }
                },
                Err(errors) => match r {
                    Ok(_) => false,
                    Err(e) => e@.message == "File is not valid"@ && e@.xml_errors == errors_view(
                        errors@,
                    ),
                },
            }
        }),
{
    match outcome {
        Ok(document) => match parse_into_jobs(&document) {
            Ok(jobs) => Ok(jobs),
            Err(m) => {
                let e = ParseError { message: m, xml_errors: Vec::new() };
                proof {
                    assert(e@.xml_errors =~= Seq::<XMLErrorView>::empty());
                }
                Err(e)
            },
        },
        Err(errors) => {
            let e = ParseError { message: "File is not valid".to_owned(), xml_errors: errors };
            proof {
                assert(e@.xml_errors =~= errors_view(outcome->Err_0@));
            }
            Err(e)
        },
    }
}

/// Validates the bytes against the zohorecruit grammar, then extracts.
/// Every job of a success has the constant "url" application method and
/// one translation, tagged "fr", with empty requirements. A failure's
/// message is the fixed validation message exactly when diagnostics are
/// attached; an extraction failure carries the missing-field message
/// alone, with no diagnostics.
pub fn parse(file: &Vec<u8>, xsd: &Vec<u8>) -> (r: Result<Vec<Job>, ParseError>)
    ensures
        match r {
            Ok(jobs) => forall|i: int|
                0 <= i < jobs@.len() ==> (#[trigger] jobs@[i])@.translations.len() == 1 && jobs@[
                    i
                ]@.translations[0].language == "fr"@ && jobs@[i]@.translations[0].requirements.len()
                    == 0 && jobs@[i]@.application_method == "url"@,
            Err(e) => {
                &&& e@.message.len() > 0
                &&& (e@.message == "File is not valid"@ <==> e@.xml_errors.len() >= 1)
                &&& (e@.xml_errors.len() == 0 ==> exists|k: Seq<char>|
                    e@.message == #[trigger] missing_field_msg(k))
            },
        },
{
    let outcome = validate_against_xsd(file, xsd);
    let ghost gout = outcome;
    let r = parse_validated(outcome);
    proof {
        reveal_strlit("File is not valid");
        reveal_strlit("required field is missing: ");
        assert("File is not valid"@.len() == 17);
        assert("required field is missing: "@.len() == 27);
        if gout is Ok && r is Err {
            let e = r->Err_0;
            let recs = gout->Ok_0@.records;
            let i = choose|i: int|
                0 <= i < recs.len() && required_missing(#[trigger] recs[i].fields) is Some
                    && e@.message == missing_field_msg(or_empty(required_missing(recs[i].fields)));
            assert(e@.message == missing_field_msg(or_empty(required_missing(recs[i].fields))));
            assert(e@.message.len() >= 27);
        }
    }
    r
}

} // verus!
