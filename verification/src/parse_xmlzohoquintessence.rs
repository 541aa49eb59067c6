//! The zohoquintessence dialect: element-addressed fields, lenient policy
//! throughout — a missing key yields the empty string and extraction never
//! fails — and a single English edition per record. Records are the root's
//! child elements named `job`.

use vstd::prelude::*;

use crate::common::{
    errors_view, Company, CompanyView, Job, JobView, ParseError, Translation, TranslationView,
    XMLError, XMLErrorView,
};
use crate::trusted::str_eq;
use crate::validate::validate_against_xsd;
use crate::xmldoc::{
    dict_get, or_empty, records_named, Addressing, RecordNode, RecordNodeView, XmlDocument,
};

verus! {

/// How this dialect addresses a record's fields.
pub open spec fn mode() -> Addressing {
    Addressing::ElementName
}

/// The canonical record a zohoquintessence record maps to: every field is
/// optional, the application method is the constant "url", and the single
/// translation is tagged "en" with the experience field as requirements.
pub open spec fn job_of(r: RecordNodeView) -> JobView {
    let f = r.fields;
    JobView {
        id: or_empty(dict_get(f, mode(), "referencenumber"@)),
        schedule: or_empty(dict_get(f, mode(), "type"@)),
        category: or_empty(dict_get(f, mode(), "category"@)),
        city: or_empty(dict_get(f, mode(), "city"@)),
        province: or_empty(dict_get(f, mode(), "state"@)),
        application_method: "url"@,
        application_destination: or_empty(dict_get(f, mode(), "url"@)),
        company: CompanyView {
            name: or_empty(dict_get(f, mode(), "company"@)),
            ..CompanyView::empty()
        },
        translations: seq![
            TranslationView {
                language: "en"@,
                title: or_empty(dict_get(f, mode(), "title"@)),
                description: or_empty(dict_get(f, mode(), "description"@)),
                requirements: or_empty(dict_get(f, mode(), "experience"@)),
            },
        ],
    }
}

/// Extracts one record under the lenient policy: never fails, absent
/// fields come out empty.
fn extract_record(record: &RecordNode) -> (job: Job)
    ensures
        job@ == job_of(record@),
{
    let f = &record.fields;
    let mut translations: Vec<Translation> = Vec::new();
    translations.push(
        Translation {
            language: "en".to_owned(),
            title: crate::xmldoc::lookup_optional(f, Addressing::ElementName, "title"),
            description: crate::xmldoc::lookup_optional(f, Addressing::ElementName, "description"),
            requirements: crate::xmldoc::lookup_optional(f, Addressing::ElementName, "experience"),
        },
    );
    let job = Job {
        id: crate::xmldoc::lookup_optional(f, Addressing::ElementName, "referencenumber"),
        schedule: crate::xmldoc::lookup_optional(f, Addressing::ElementName, "type"),
        category: crate::xmldoc::lookup_optional(f, Addressing::ElementName, "category"),
        city: crate::xmldoc::lookup_optional(f, Addressing::ElementName, "city"),
        province: crate::xmldoc::lookup_optional(f, Addressing::ElementName, "state"),
        application_method: "url".to_owned(),
        application_destination: crate::xmldoc::lookup_optional(f, Addressing::ElementName, "url"),
        company: Company {
            id: String::new(),
            name: crate::xmldoc::lookup_optional(f, Addressing::ElementName, "company"),
            city: String::new(),
            postal_code: String::new(),
            logo_url: String::new(),
        },
        translations,
    };
    proof {
        assert(job@ =~~= job_of(record@));
    }
    job
}

/// Extracts every record named `job`, in order. Under the lenient policy
/// extraction always succeeds.
pub fn parse_into_jobs(document: &XmlDocument) -> (r: Result<Vec<Job>, String>)
    ensures
        r is Ok,
        ({
            let sel = records_named(document@.records, "job"@);
            match r {
                Ok(jobs) => jobs@.len() == sel.len() && (forall|i: int|
                    0 <= i < sel.len() ==> (#[trigger] jobs@[i])@ == job_of(sel[i])),
                Err(_) => false,
            }
        }),
{
    let ghost recs = document@.records;
    let mut jobs: Vec<Job> = Vec::new();
    let mut i: usize = 0;
    proof {
        assert(recs.take(0) =~= Seq::<RecordNodeView>::empty());
    }
    while i < document.records.len()
        invariant
            i <= document.records.len(),
            recs == document@.records,
            recs.len() == document.records.len(),
            ({
                let sel = records_named(recs.take(i as int), "job"@);
                jobs@.len() == sel.len() && (forall|j: int|
                    0 <= j < sel.len() ==> (#[trigger] jobs@[j])@ == job_of(sel[j]))
            }),
        decreases document.records.len() - i,
    {
        proof {
            assert(document.records@[i as int]@ == recs[i as int]);
            assert(recs.take(i as int + 1).last() == recs[i as int]);
            assert(recs.take(i as int + 1).drop_last() =~= recs.take(i as int));
        }
        let record = &document.records[i];
        if str_eq(record.name.as_str(), "job") {
            jobs.push(extract_record(record));
        }
        i = i + 1;
    }
    proof {
        assert(recs.take(document.records.len() as int) =~= recs);
    }
    Ok(jobs)
}

/// Carries the validator's outcome through extraction. A validation
/// failure passes its diagnostics on under the fixed message; from a
/// validated document, extraction never fails and never reports a schema
/// diagnostic — validation and extraction are independent passes.
pub fn parse_validated(outcome: Result<XmlDocument, Vec<XMLError>>) -> (r: Result<
    Vec<Job>,
    ParseError,
>)
    ensures
        ({
            match outcome {
                Ok(document) => {
                    let sel = records_named(document@.records, "job"@);
                    match r {
                        Ok(jobs) => jobs@.len() == sel.len() && (forall|i: int|
                            0 <= i < sel.len() ==> (#[trigger] jobs@[i])@ == job_of(sel[i])),
                        Err(_) => false,
                    }
                },
                Err(errors) => match r {
                    Ok(_) => false,
                    Err(e) => e@.message == "File is not valid"@ && e@.xml_errors == errors_view(
                        errors@,
                    ),
                },
            }
        }),
{
    match outcome {
        Ok(document) => match parse_into_jobs(&document) {
            Ok(jobs) => Ok(jobs),
            Err(m) => Err(ParseError { message: m, xml_errors: Vec::new() }),
        },
        Err(errors) => {
            let e = ParseError { message: "File is not valid".to_owned(), xml_errors: errors };
            proof {
                assert(e@.xml_errors =~= errors_view(outcome->Err_0@));
            }
            Err(e)
        },
    }
}

/// Validates the bytes against the zohoquintessence grammar, then
/// extracts. Every job of a success has the constant "url" application
/// method and one translation, tagged "en". The only failure is a
/// validation failure: its message is the fixed one and it always carries
/// diagnostics.
pub fn parse(file: &Vec<u8>, xsd: &Vec<u8>) -> (r: Result<Vec<Job>, ParseError>)
    ensures
        match r {
            Ok(jobs) => forall|i: int|
                0 <= i < jobs@.len() ==> (#[trigger] jobs@[i])@.translations.len() == 1 && jobs@[
                    i
                ]@.translations[0].language == "en"@ && jobs@[i]@.application_method == "url"@,
            Err(e) => e@.message == "File is not valid"@ && e@.message.len() > 0
                && e@.xml_errors.len() >= 1,
        },
{
    let outcome = validate_against_xsd(file, xsd);
    let r = parse_validated(outcome);
    proof {
        reveal_strlit("File is not valid");
        assert("File is not valid"@.len() == 17);
    }
    r
}

} // verus!
