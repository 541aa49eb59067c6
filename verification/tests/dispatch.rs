use jobfeed::import::{handle_import, SchemaRegistry};
use jobfeed::xmldoc::{FieldNode, RecordNode, XmlDocument};

const JOBS_XSD: &str = "<?xml version=\"1.0\"?>\
<xs:schema xmlns:xs=\"http://www.w3.org/2001/XMLSchema\">\
  <xs:element name=\"jobs\">\
    <xs:complexType>\
      <xs:sequence>\
        <xs:element name=\"job\" minOccurs=\"0\" maxOccurs=\"unbounded\">\
          <xs:complexType>\
            <xs:sequence>\
              <xs:element name=\"title\">\
                <xs:complexType>\
                  <xs:simpleContent>\
                    <xs:extension base=\"xs:string\">\
                      <xs:attribute name=\"lang\" type=\"xs:string\"/>\
                    </xs:extension>\
                  </xs:simpleContent>\
                </xs:complexType>\
              </xs:element>\
            </xs:sequence>\
          </xs:complexType>\
        </xs:element>\
      </xs:sequence>\
    </xs:complexType>\
  </xs:element>\
</xs:schema>";

fn registry() -> SchemaRegistry {
    SchemaRegistry {
        hotelleriejobs: JOBS_XSD.as_bytes().to_vec(),
        grandio: JOBS_XSD.as_bytes().to_vec(),
        tidan: JOBS_XSD.as_bytes().to_vec(),
        pscout: JOBS_XSD.as_bytes().to_vec(),
        zohoquintessence: JOBS_XSD.as_bytes().to_vec(),
        zohorecruit: JOBS_XSD.as_bytes().to_vec(),
    }
}

#[test]
fn missing_part_is_rejected_before_dispatch() {
    let file = b"<jobs/>".to_vec();
    let (status, response) = handle_import(None, Some(&file), &registry());
    assert_eq!(status, 400);
    assert!(!response.success);
    assert_eq!(response.errors, "Format or file is missing");
    assert_eq!(response.xml_errors.len(), 0);
    assert_eq!(response.jobs.len(), 0);

    let format = "xml-tidan".to_string();
    let (status, response) = handle_import(Some(&format), None, &registry());
    assert_eq!(status, 400);
    assert_eq!(response.errors, "Format or file is missing");
}

#[test]
fn unknown_format_is_rejected_without_diagnostics() {
    let format = "xml-elsewhere".to_string();
    let file = b"<jobs/>".to_vec();
    let (status, response) = handle_import(Some(&format), Some(&file), &registry());
    assert_eq!(status, 400);
    assert!(!response.success);
    assert_eq!(response.errors, "Format is not supported");
    assert_eq!(response.xml_errors.len(), 0);
    assert_eq!(response.jobs.len(), 0);
}

#[test]
fn retired_format_is_rejected_with_distinct_message() {
    let format = "xml-icims".to_string();
    let file = b"<jobs/>".to_vec();
    let (status, response) = handle_import(Some(&format), Some(&file), &registry());
    assert_eq!(status, 501);
    assert!(!response.success);
    assert_eq!(response.errors, "icims format is no longer supported");
    assert_eq!(response.xml_errors.len(), 0);
    assert_eq!(response.jobs.len(), 0);
    assert_ne!(response.errors, "Format is not supported");
}

#[test]
fn valid_payload_converts_end_to_end() {
    let format = "xml-hotelleriejobs".to_string();
    let file = b"<jobs><job><title>Cook</title></job></jobs>".to_vec();
    let (status, response) = handle_import(Some(&format), Some(&file), &registry());
    assert_eq!(status, 200);
    assert!(response.success);
    assert_eq!(response.errors, "");
    assert_eq!(response.xml_errors.len(), 0);
    assert_eq!(response.jobs.len(), 1);
    assert_eq!(response.jobs[0].translations.len(), 1);
    assert_eq!(response.jobs[0].translations[0].language, "en");
    assert_eq!(response.jobs[0].translations[0].title, "Cook");
}

#[test]
fn schema_violation_carries_diagnostics_and_no_records() {
    let format = "xml-hotelleriejobs".to_string();
    let file = b"<jobs><job><wrong>X</wrong></job></jobs>".to_vec();
    let (status, response) = handle_import(Some(&format), Some(&file), &registry());
    assert_eq!(status, 400);
    assert!(!response.success);
    assert_eq!(response.errors, "File is not valid");
    assert!(response.xml_errors.len() > 0);
    assert_eq!(response.jobs.len(), 0);
}

#[test]
fn extraction_failure_carries_no_diagnostics() {
    let format = "xml-tidan".to_string();
    let file = b"<jobs><job><title>X</title></job></jobs>".to_vec();
    let (status, response) = handle_import(Some(&format), Some(&file), &registry());
    assert_eq!(status, 400);
    assert!(!response.success);
    assert_eq!(response.errors, "required field is missing: businessProcessId");
    assert_eq!(response.xml_errors.len(), 0);
    assert_eq!(response.jobs.len(), 0);
}

#[test]
fn empty_feed_converts_to_no_records() {
    let format = "xml-hotelleriejobs".to_string();
    let file = b"<jobs></jobs>".to_vec();
    let (status, response) = handle_import(Some(&format), Some(&file), &registry());
    assert_eq!(status, 200);
    assert!(response.success);
    assert_eq!(response.jobs.len(), 0);
    assert_eq!(response.xml_errors.len(), 0);
}

#[test]
fn empty_schema_definition_is_a_diagnostic() {
    let file = b"<jobs/>".to_vec();
    let err = jobfeed::validate::validate_against_xsd(&file, &Vec::new()).unwrap_err();
    assert_eq!(err.len(), 1);
    assert_eq!(err[0].message, "schema definition is empty");
    assert_eq!(err[0].level, "Fatal");
}

#[test]
fn missing_grammar_rejects_instead_of_crashing() {
    let format = "xml-grandio".to_string();
    let file = b"<jobs/>".to_vec();
    let reg = SchemaRegistry {
        hotelleriejobs: Vec::new(),
        grandio: Vec::new(),
        tidan: Vec::new(),
        pscout: Vec::new(),
        zohoquintessence: Vec::new(),
        zohorecruit: Vec::new(),
    };
    let (status, response) = handle_import(Some(&format), Some(&file), &reg);
    assert_eq!(status, 400);
    assert!(!response.success);
    assert_eq!(response.errors, "File is not valid");
    assert_eq!(response.xml_errors.len(), 1);
    assert_eq!(response.xml_errors[0].message, "schema definition is empty");
    assert_eq!(response.jobs.len(), 0);
}

#[test]
fn validated_outcome_never_gains_diagnostics() {
    let d = XmlDocument {
        root_name: "jobs".to_string(),
        records: vec![RecordNode { name: "job".to_string(), fields: Vec::<FieldNode>::new() }],
    };
    let err = jobfeed::parse_xmltidan::parse_validated(Ok(d)).unwrap_err();
    assert_eq!(err.xml_errors.len(), 0);
    assert_eq!(err.message, "required field is missing: businessProcessId");
}

#[test]
fn malformed_payload_is_a_single_fatal_diagnostic() {
    let file = Vec::new();
    let xsd = JOBS_XSD.as_bytes().to_vec();
    let err = jobfeed::validate::validate_against_xsd(&file, &xsd).unwrap_err();
    assert_eq!(err.len(), 1);
    assert_eq!(err[0].message, "file is not well-formed XML");
    assert_eq!(err[0].level, "Fatal");
}

#[test]
fn valid_payload_validates_into_document_model() {
    let file = b"<jobs><job><title lang=\"fr\">Chef</title></job></jobs>".to_vec();
    let xsd = JOBS_XSD.as_bytes().to_vec();
    let document = jobfeed::validate::validate_against_xsd(&file, &xsd).unwrap();
    assert_eq!(document.root_name, "jobs");
    assert_eq!(document.records.len(), 1);
    assert_eq!(document.records[0].name, "job");
    assert_eq!(document.records[0].fields.len(), 1);
    assert_eq!(document.records[0].fields[0].name, "title");
    assert_eq!(document.records[0].fields[0].text, "Chef");
    let lang = document.records[0].fields[0]
        .attrs
        .iter()
        .find(|a| a.key == "lang")
        .map(|a| a.value.clone());
    assert_eq!(lang, Some("fr".to_string()));
}
