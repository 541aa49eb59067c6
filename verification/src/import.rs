//! Dispatch: a caller-supplied format identifier selects one of the
//! enumerated adapters, the payload runs through validation and
//! extraction, and the outcome becomes one response shape. A request
//! missing either part, an unrecognized identifier, and the retired
//! identifier are each rejected before any parsing occurs.

use vstd::prelude::*;

use crate::common::{errors_view, jobs_view, Job, JobView, ParseError, XMLError, XMLErrorView};
use crate::trusted::str_eq;
use crate::xmldoc::missing_field_msg;

verus! {

/// The response of one conversion request: a success flag, an error
/// message (empty on success), the validator's diagnostics (empty unless
/// the failure came from schema validation), and the canonical records
/// (empty unless success).
pub struct ImportResponse {
    pub success: bool,
    pub errors: String,
    pub xml_errors: Vec<XMLError>,
    pub jobs: Vec<Job>,
}

#[verifier::ext_equal]
pub ghost struct ImportResponseView {
    pub success: bool,
    pub errors: Seq<char>,
    pub xml_errors: Seq<XMLErrorView>,
    pub jobs: Seq<JobView>,
}

impl View for ImportResponse {
    type V = ImportResponseView;

    open spec fn view(&self) -> ImportResponseView {
        ImportResponseView {
            success: self.success,
            errors: self.errors@,
            xml_errors: errors_view(self.xml_errors@),
            jobs: jobs_view(self.jobs@),
        }
    }
}

/// The fixed, pre-registered structural grammars, one per active vendor
/// format. The collaborator that owns the schema store fills this in once;
/// the registry is read-only for the conversion itself.
pub struct SchemaRegistry {
    pub hotelleriejobs: Vec<u8>,
    pub grandio: Vec<u8>,
    pub tidan: Vec<u8>,
    pub pscout: Vec<u8>,
    pub zohoquintessence: Vec<u8>,
    pub zohorecruit: Vec<u8>,
}

/// Maps one adapter outcome to the response: a success carries the
/// records and nothing else; a failure carries the message, the
/// diagnostics it came with, and no records.
pub fn respond(outcome: Result<Vec<Job>, ParseError>) -> (r: (u16, ImportResponse))
    ensures
        match outcome {
            Ok(jobs) => r.0 == 200 && r.1@.success && r.1@.errors.len() == 0
                && r.1@.xml_errors.len() == 0 && r.1@.jobs == jobs_view(jobs@),
            Err(e) => r.0 == 400 && !r.1@.success && r.1@.errors == e@.message
                && r.1@.xml_errors == e@.xml_errors && r.1@.jobs.len() == 0,
        },
{
    match outcome {
        Ok(jobs) => {
            let response = ImportResponse {
                success: true,
                errors: String::new(),
                xml_errors: Vec::new(),
                jobs,
            };
            proof {
                assert(response@.xml_errors =~= Seq::<XMLErrorView>::empty());
            }
            (200, response)
        },
        Err(e) => {
            let response = ImportResponse {
                success: false,
                errors: e.message,
                xml_errors: e.xml_errors,
                jobs: Vec::new(),
            };
            proof {
                assert(response@.jobs =~= Seq::<JobView>::empty());
                assert(response@.xml_errors =~= outcome->Err_0@.xml_errors);
            }
            (400, response)
        },
    }
}

/// A rejection issued before any parsing: a message alone, with no
/// diagnostics and no records.
fn rejection(status: u16, message: &str) -> (r: (u16, ImportResponse))
    ensures
        r.0 == status && !r.1@.success && r.1@.errors == message@ && r.1@.xml_errors.len() == 0
            && r.1@.jobs.len() == 0,
{
    let response = ImportResponse {
        success: false,
        errors: message.to_owned(),
        xml_errors: Vec::new(),
        jobs: Vec::new(),
    };
    proof {
        assert(response@.xml_errors =~= Seq::<XMLErrorView>::empty());
        assert(response@.jobs =~= Seq::<JobView>::empty());
    }
    (status, response)
}

/// The two fixed rejection messages differ: an unsupported identifier is
/// told apart from the retired one by the message alone.
pub proof fn lemma_rejections_distinct()
    ensures
        "Format is not supported"@ != "icims format is no longer supported"@,
{
    reveal_strlit("Format is not supported");
    reveal_strlit("icims format is no longer supported");
    assert("Format is not supported"@.len() == 23);
    assert("icims format is no longer supported"@.len() == 35);
}

/// No missing-field message coincides with a fixed rejection or validation
/// message: the missing-field form opens with its own fixed prefix.
proof fn lemma_missing_form_distinct()
    ensures
        forall|k: Seq<char>| #[trigger] missing_field_msg(k) != "Format or file is missing"@,
        forall|k: Seq<char>| #[trigger] missing_field_msg(k)
            != "icims format is no longer supported"@,
        forall|k: Seq<char>| #[trigger] missing_field_msg(k) != "Format is not supported"@,
        forall|k: Seq<char>| #[trigger] missing_field_msg(k) != "File is not valid"@,
{
    reveal_strlit("required field is missing: ");
    reveal_strlit("Format or file is missing");
    reveal_strlit("icims format is no longer supported");
    reveal_strlit("Format is not supported");
    reveal_strlit("File is not valid");
    assert forall|k: Seq<char>|
        (#[trigger] missing_field_msg(k)) != "Format or file is missing"@ && missing_field_msg(k)
            != "icims format is no longer supported"@ && missing_field_msg(k)
            != "Format is not supported"@ && missing_field_msg(k) != "File is not valid"@ by {
        assert("required field is missing: "@.len() == 27);
        assert(missing_field_msg(k)[0] == "required field is missing: "@[0]);
        assert(missing_field_msg(k)[0] == 'r');
    }
}

/// Handles one conversion request: rejects a request missing either part,
/// the retired identifier, and an unrecognized identifier, each with its
/// fixed message; otherwise validates the payload against the selected
/// format's grammar, extracts, and renders the outcome. The first element
/// of the result is the status code the transport should answer with:
/// success and the 200 status coincide, a failure answers 400 (or 501 for
/// the retired format), and only a success has an empty message.
pub fn handle_import(
    format: Option<&String>,
    file: Option<&Vec<u8>>,
    schemas: &SchemaRegistry,
) -> (r: (u16, ImportResponse))
    ensures
        format is None || file is None ==> r.0 == 400 && !r.1@.success && r.1@.errors
            == "Format or file is missing"@ && r.1@.xml_errors.len() == 0 && r.1@.jobs.len() == 0,
        ({
            &&& format matches Some(f)
            &&& file is Some
            &&& f@ == "xml-icims"@
        }) ==> r.0 == 501 && !r.1@.success && r.1@.errors == "icims format is no longer supported"@
            && r.1@.xml_errors.len() == 0 && r.1@.jobs.len() == 0,
        ({
            &&& format matches Some(f)
            &&& file is Some
            &&& f@ != "xml-hotelleriejobs"@
            &&& f@ != "xml-icims"@
            &&& f@ != "xml-grandio"@
            &&& f@ != "xml-tidan"@
            &&& f@ != "xml-pscout"@
            &&& f@ != "xml-zohoquintescence"@
            &&& f@ != "xml-zohorecruit"@
        }) ==> r.0 == 400 && !r.1@.success && r.1@.errors == "Format is not supported"@
            && r.1@.xml_errors.len() == 0 && r.1@.jobs.len() == 0,
        r.1@.success <==> r.0 == 200,
        r.1@.success <==> r.1@.errors.len() == 0,
        r.1@.success ==> r.1@.xml_errors.len() == 0,
        !r.1@.success ==> r.1@.jobs.len() == 0 && (r.0 == 400 || r.0 == 501),
        r.1@.xml_errors.len() > 0 ==> r.1@.errors == "File is not valid"@,
        r.1@.errors == "File is not valid"@ ==> r.1@.xml_errors.len() >= 1,
        ({
            &&& format matches Some(f)
            &&& file is Some
            &&& (f@ == "xml-hotelleriejobs"@ || f@ == "xml-grandio"@ || f@ == "xml-tidan"@ || f@
                == "xml-pscout"@ || f@ == "xml-zohoquintescence"@ || f@ == "xml-zohorecruit"@)
        }) ==> (r.1@.errors.len() == 0 || r.1@.errors == "File is not valid"@ || (exists|
            k: Seq<char>,
        |
            r.1@.errors == #[trigger] missing_field_msg(k))),
        r.1@.errors == "Format or file is missing"@ ==> format is None || file is None,
        r.1@.errors == "icims format is no longer supported"@ ==> (format matches Some(f) && f@
            == "xml-icims"@),
        r.1@.errors == "Format is not supported"@ ==> (format matches Some(f) && file is Some && f@
            != "xml-hotelleriejobs"@ && f@ != "xml-icims"@ && f@ != "xml-grandio"@ && f@
            != "xml-tidan"@ && f@ != "xml-pscout"@ && f@ != "xml-zohoquintescence"@ && f@
            != "xml-zohorecruit"@),
{
    proof {
        lemma_missing_form_distinct();
        reveal_strlit("Format or file is missing");
        reveal_strlit("Format is not supported");
        reveal_strlit("icims format is no longer supported");
        reveal_strlit("File is not valid");
        assert("Format or file is missing"@.len() == 25);
        assert("Format is not supported"@.len() == 23);
        assert("icims format is no longer supported"@.len() == 35);
        assert("File is not valid"@.len() == 17);
        reveal_strlit("xml-hotelleriejobs");
        reveal_strlit("xml-icims");
        reveal_strlit("xml-grandio");
        reveal_strlit("xml-tidan");
        reveal_strlit("xml-pscout");
        reveal_strlit("xml-zohoquintescence");
        reveal_strlit("xml-zohorecruit");
        assert("xml-icims"@.len() == 9);
        assert("xml-tidan"@.len() == 9);
        assert("xml-icims"@[4] != "xml-tidan"@[4]);
        assert("xml-hotelleriejobs"@.len() == 18);
        assert("xml-grandio"@.len() == 11);
        assert("xml-pscout"@.len() == 10);
        assert("xml-zohoquintescence"@.len() == 20);
        assert("xml-zohorecruit"@.len() == 15);
    }
    let (f, payload) = match (format, file) {
        (Some(f), Some(b)) => (f, b),
        _ => {
            return rejection(400, "Format or file is missing");
        },
    };

    if str_eq(f.as_str(), "xml-hotelleriejobs") {
        respond(crate::parse_xmlhotelleriejobs::parse(payload, &schemas.hotelleriejobs))
    } else if str_eq(f.as_str(), "xml-icims") {
        rejection(501, "icims format is no longer supported")
    } else if str_eq(f.as_str(), "xml-grandio") {
        respond(crate::parse_xmlgrandio::parse(payload, &schemas.grandio))
    } else if str_eq(f.as_str(), "xml-tidan") {
        respond(crate::parse_xmltidan::parse(payload, &schemas.tidan))
    } else if str_eq(f.as_str(), "xml-pscout") {
        respond(crate::parse_xmlpscout::parse(payload, &schemas.pscout))
    } else if str_eq(f.as_str(), "xml-zohoquintescence") {
        respond(crate::parse_xmlzohoquintessence::parse(payload, &schemas.zohoquintessence))
    } else if str_eq(f.as_str(), "xml-zohorecruit") {
        respond(crate::parse_xmlzohorecruit::parse(payload, &schemas.zohorecruit))
    } else {
        rejection(400, "Format is not supported")
    }
}

} // verus!
