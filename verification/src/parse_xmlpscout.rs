//! The pscout dialect: attribute-addressed fields (each child is keyed by
//! its `name` attribute), strict required-field policy, and a fixed
//! bilingual output — every record yields exactly two translations, one
//! tagged "fr" and one tagged "en", each drawn from its own set of
//! language-suffixed field names.

use vstd::prelude::*;

use crate::common::{
    errors_view, Company, CompanyView, Job, JobView, ParseError, Translation, TranslationView,
    XMLError, XMLErrorView,
};
use crate::validate::validate_against_xsd;
use crate::xmldoc::{
    dict_get, missing_field_msg, or_empty, Addressing, FieldNodeView, RecordNodeView, XmlDocument,
};

verus! {

/// How this dialect addresses a record's fields.
pub open spec fn mode() -> Addressing {
    Addressing::NameAttribute
}

/// The first required field, in extraction order, that the record's
/// dictionary misses — None when the record is complete. Every field of
/// this dialect is required.
pub open spec fn required_missing(f: Seq<FieldNodeView>) -> Option<Seq<char>> {
    if dict_get(f, mode(), "JobReferenceNumber"@) is None {
        Some("JobReferenceNumber"@)
    } else if dict_get(f, mode(), "Schedule"@) is None {
        Some("Schedule"@)
    } else if dict_get(f, mode(), "Category"@) is None {
        Some("Category"@)
    } else if dict_get(f, mode(), "PraimaryCity"@) is None {
        Some("PraimaryCity"@)
    } else if dict_get(f, mode(), "state"@) is None {
        Some("state"@)
    } else if dict_get(f, mode(), "UrlforJobPosting"@) is None {
        Some("UrlforJobPosting"@)
    } else if dict_get(f, mode(), "PropertyBrand"@) is None {
        Some("PropertyBrand"@)
    } else if dict_get(f, mode(), "JobTitle_FR"@) is None {
        Some("JobTitle_FR"@)
    } else if dict_get(f, mode(), "JobDescription_FR"@) is None {
        Some("JobDescription_FR"@)
    } else if dict_get(f, mode(), "JobQualification_FR"@) is None {
        Some("JobQualification_FR"@)
    } else if dict_get(f, mode(), "JobTitle_EN"@) is None {
        Some("JobTitle_EN"@)
    } else if dict_get(f, mode(), "JobDescription_EN"@) is None {
        Some("JobDescription_EN"@)
    } else if dict_get(f, mode(), "JobQualification_EN"@) is None {
        Some("JobQualification_EN"@)
    } else {
        None
    }
}

/// The canonical record a complete pscout record maps to: exactly two
/// translations, the French one first, then the English one, whatever the
/// content of the language-suffixed fields.
pub open spec fn job_of(r: RecordNodeView) -> JobView {
    let f = r.fields;
    JobView {
        id: or_empty(dict_get(f, mode(), "JobReferenceNumber"@)),
        schedule: or_empty(dict_get(f, mode(), "Schedule"@)),
        category: or_empty(dict_get(f, mode(), "Category"@)),
        city: or_empty(dict_get(f, mode(), "PraimaryCity"@)),
        province: or_empty(dict_get(f, mode(), "state"@)),
        application_method: "url"@,
        application_destination: or_empty(dict_get(f, mode(), "UrlforJobPosting"@)),
        company: CompanyView {
            name: or_empty(dict_get(f, mode(), "PropertyBrand"@)),
            ..CompanyView::empty()
        },
        translations: seq![
            TranslationView {
                language: "fr"@,
                title: or_empty(dict_get(f, mode(), "JobTitle_FR"@)),
                description: or_empty(dict_get(f, mode(), "JobDescription_FR"@)),
                requirements: or_empty(dict_get(f, mode(), "JobQualification_FR"@)),
            },
            TranslationView {
                language: "en"@,
                title: or_empty(dict_get(f, mode(), "JobTitle_EN"@)),
                description: or_empty(dict_get(f, mode(), "JobDescription_EN"@)),
                requirements: or_empty(dict_get(f, mode(), "JobQualification_EN"@)),
            },
        ],
    }
}

/// Every record this dialect extracts is bilingual: exactly two
/// translations, tagged "fr" then "en", regardless of which fields are
/// populated.
pub proof fn lemma_bilingual(r: RecordNodeView)
    ensures
        job_of(r).translations.len() == 2,
        job_of(r).translations[0].language == "fr"@,
        job_of(r).translations[1].language == "en"@,
{
}

/// Extracts one record under the strict policy: the canonical job, or a
/// failure naming the first missing required field.
fn extract_record(record: &crate::xmldoc::RecordNode) -> (r: Result<Job, String>)
    ensures
        match r {
            Ok(job) => required_missing(record@.fields) is None && job@ == job_of(record@),
            Err(m) => required_missing(record@.fields) is Some && m@ == missing_field_msg(
                or_empty(required_missing(record@.fields)),
            ),
        },
{
    let f = &record.fields;
    let id = match crate::xmldoc::lookup_required(f, Addressing::NameAttribute, "JobReferenceNumber") {
        Ok(v) => v,
        Err(m) => {
            return Err(m);
        },
    };
    let schedule = match crate::xmldoc::lookup_required(f, Addressing::NameAttribute, "Schedule") {
        Ok(v) => v,
        Err(m) => {
            return Err(m);
        },
    };
    let category = match crate::xmldoc::lookup_required(f, Addressing::NameAttribute, "Category") {
        Ok(v) => v,
        Err(m) => {
            return Err(m);
        },
    };
    let city = match crate::xmldoc::lookup_required(f, Addressing::NameAttribute, "PraimaryCity") {
        Ok(v) => v,
        Err(m) => {
            return Err(m);
        },
    };
    let province = match crate::xmldoc::lookup_required(f, Addressing::NameAttribute, "state") {
        Ok(v) => v,
        Err(m) => {
            return Err(m);
        },
    };
    let apply_url = match crate::xmldoc::lookup_required(
        f,
        Addressing::NameAttribute,
        "UrlforJobPosting",
    ) {
        Ok(v) => v,
        Err(m) => {
            return Err(m);
        },
    };
    let company_name = match crate::xmldoc::lookup_required(
        f,
        Addressing::NameAttribute,
        "PropertyBrand",
    ) {
        Ok(v) => v,
        Err(m) => {
            return Err(m);
        },
    };
    let title_fr = match crate::xmldoc::lookup_required(f, Addressing::NameAttribute, "JobTitle_FR") {
        Ok(v) => v,
        Err(m) => {
            return Err(m);
        },
    };
    let description_fr = match crate::xmldoc::lookup_required(
        f,
        Addressing::NameAttribute,
        "JobDescription_FR",
    ) {
        Ok(v) => v,
        Err(m) => {
            return Err(m);
        },
    };
    let requirements_fr = match crate::xmldoc::lookup_required(
        f,
        Addressing::NameAttribute,
        "JobQualification_FR",
    ) {
        Ok(v) => v,
        Err(m) => {
            return Err(m);
        },
    };
    let title_en = match crate::xmldoc::lookup_required(f, Addressing::NameAttribute, "JobTitle_EN") {
        Ok(v) => v,
        Err(m) => {
            return Err(m);
        },
    };
    let description_en = match crate::xmldoc::lookup_required(
        f,
        Addressing::NameAttribute,
        "JobDescription_EN",
    ) {
        Ok(v) => v,
        Err(m) => {
            return Err(m);
        },
    };
    let requirements_en = match crate::xmldoc::lookup_required(
        f,
        Addressing::NameAttribute,
        "JobQualification_EN",
    ) {
        Ok(v) => v,
        Err(m) => {
            return Err(m);
        },
    };

    let mut translations: Vec<Translation> = Vec::new();
    translations.push(
        Translation {
            language: "fr".to_owned(),
            title: title_fr,
            description: description_fr,
            requirements: requirements_fr,
        },
    );
    translations.push(
        Translation {
            language: "en".to_owned(),
            title: title_en,
            description: description_en,
            requirements: requirements_en,
        },
    );
    let job = Job {
        id,
        schedule,
        category,
        city,
        province,
        application_method: "url".to_owned(),
        application_destination: apply_url,
        company: Company {
            id: String::new(),
            name: company_name,
            city: String::new(),
            postal_code: String::new(),
            logo_url: String::new(),
        },
        translations,
    };
    proof {
        assert(job@ =~~= job_of(record@));
    }
    Ok(job)
}

/// Extracts every record of the validated document, in order, failing at
/// the first record with a missing required field.
pub fn parse_into_jobs(document: &XmlDocument) -> (r: Result<Vec<Job>, String>)
    ensures
        ({
            let recs = document@.records;
            match r {
                Ok(jobs) => jobs@.len() == recs.len() && (forall|i: int|
                    0 <= i < recs.len() ==> required_missing(#[trigger] recs[i].fields) is None)
                    && (forall|i: int|
                    0 <= i < recs.len() ==> (#[trigger] jobs@[i])@ == job_of(recs[i])),
                Err(m) => exists|i: int|
                    0 <= i < recs.len() && required_missing(#[trigger] recs[i].fields) is Some
                        && m@ == missing_field_msg(or_empty(required_missing(recs[i].fields))) && (
                    forall|j: int| 0 <= j < i ==> required_missing(#[trigger] recs[j].fields) is None),
            }
        }),
{
    let mut jobs: Vec<Job> = Vec::new();
    let mut i: usize = 0;
    while i < document.records.len()
        invariant
            i <= document.records.len(),
            jobs@.len() == i,
            forall|j: int|
                0 <= j < i ==> required_missing(#[trigger] document@.records[j].fields) is None,
            forall|j: int| 0 <= j < i ==> (#[trigger] jobs@[j])@ == job_of(document@.records[j]),
        decreases document.records.len() - i,
    {
        proof {
            assert(document.records@[i as int]@ == document@.records[i as int]);
        }
        match extract_record(&document.records[i]) {
            Ok(job) => {
                jobs.push(job);
            },
            Err(m) => {
                proof {
                    assert(required_missing(document@.records[i as int].fields) is Some);
                }
                return Err(m);
            },
        }
        i = i + 1;
    }
    Ok(jobs)
}

/// Carries the validator's outcome through extraction. A validation
/// failure passes its diagnostics on under the fixed message; from a
/// validated document, extraction reports at most a message and never a
/// schema diagnostic — validation and extraction are independent passes.
pub fn parse_validated(outcome: Result<XmlDocument, Vec<XMLError>>) -> (r: Result<
    Vec<Job>,
    ParseError,
>)
    ensures
        ({
            match outcome {
                Ok(document) => {
                    let recs = document@.records;
                    match r {
                        Ok(jobs) => jobs@.len() == recs.len() && (forall|i: int|
                            0 <= i < recs.len() ==> required_missing(
                                #[trigger] recs[i].fields,
                            ) is None) && (forall|i: int|
                            0 <= i < recs.len() ==> (#[trigger] jobs@[i])@ == job_of(recs[i])),
                        Err(e) => e@.xml_errors.len() == 0 && exists|i: int|
                            0 <= i < recs.len() && required_missing(
                                #[trigger] recs[i].fields,
                            ) is Some && e@.message == missing_field_msg(
                                or_empty(required_missing(recs[i].fields)),
                            ),
                    }
                },
                Err(errors) => match r {
                    Ok(_) => false,
                    Err(e) => e@.message == "File is not valid"@ && e@.xml_errors == errors_view(
                        errors@,
                    ),
                },
            }
        }),
{
    match outcome {
        Ok(document) => match parse_into_jobs(&document) {
            Ok(jobs) => Ok(jobs),
            Err(m) => {
                let e = ParseError { message: m, xml_errors: Vec::new() };
                proof {
                    assert(e@.xml_errors =~= Seq::<XMLErrorView>::empty());
                }
                Err(e)
            },
        },
        Err(errors) => {
            let e = ParseError { message: "File is not valid".to_owned(), xml_errors: errors };
            proof {
                assert(e@.xml_errors =~= errors_view(outcome->Err_0@));
            }
            Err(e)
        },
    }
}

/// Validates the bytes against the pscout grammar, then extracts. Every
/// job of a success is bilingual — exactly two translations, "fr" then
/// "en" — with the constant "url" application method. A failure's message
/// is the fixed validation message exactly when diagnostics are attached;
/// an extraction failure carries the missing-field message alone, with no
/// diagnostics.
pub fn parse(file: &Vec<u8>, xsd: &Vec<u8>) -> (r: Result<Vec<Job>, ParseError>)
    ensures
        match r {
            Ok(jobs) => forall|i: int|
                0 <= i < jobs@.len() ==> (#[trigger] jobs@[i])@.translations.len() == 2 && jobs@[
                    i
                ]@.translations[0].language == "fr"@ && jobs@[i]@.translations[1].language == "en"@
                    && jobs@[i]@.application_method == "url"@,
            Err(e) => {
                &&& e@.message.len() > 0
                &&& (e@.message == "File is not valid"@ <==> e@.xml_errors.len() >= 1)
                &&& (e@.xml_errors.len() == 0 ==> exists|k: Seq<char>|
                    e@.message == #[trigger] missing_field_msg(k))
            },
        },
{
    let outcome = validate_against_xsd(file, xsd);
    let ghost gout = outcome;
    let r = parse_validated(outcome);
    proof {
        reveal_strlit("File is not valid");
        reveal_strlit("required field is missing: ");
        assert("File is not valid"@.len() == 17);
        assert("required field is missing: "@.len() == 27);
        if gout is Ok && r is Err {
            let e = r->Err_0;
            let recs = gout->Ok_0@.records;
            let i = choose|i: int|
                0 <= i < recs.len() && required_missing(#[trigger] recs[i].fields) is Some
                    && e@.message == missing_field_msg(or_empty(required_missing(recs[i].fields)));
            assert(e@.message == missing_field_msg(or_empty(required_missing(recs[i].fields))));
            assert(e@.message.len() >= 27);
        }
    }
    r
}

} // verus!
