use jobfeed::xmldoc::{FieldNode, RecordNode, XmlAttr, XmlDocument};

fn field(name: &str, text: &str) -> FieldNode {
    FieldNode { name: name.to_string(), attrs: vec![], text: text.to_string() }
}

fn lang_field(name: &str, lang: &str, text: &str) -> FieldNode {
    FieldNode {
        name: name.to_string(),
        attrs: vec![XmlAttr { key: "lang".to_string(), value: lang.to_string() }],
        text: text.to_string(),
    }
}

fn doc(records: Vec<RecordNode>) -> XmlDocument {
    XmlDocument { root_name: "jobs".to_string(), records }
}

#[test]
fn merge_groups_content_by_language() {
    let fields = vec![
        field("unique_id", "H1"),
        lang_field("title", "fr", "Bonjour"),
        lang_field("description", "fr", "Description"),
        field("requirements", "Requirements"),
    ];
    let d = doc(vec![RecordNode { name: "job".to_string(), fields }]);
    let jobs = jobfeed::parse_xmlhotelleriejobs::parse_into_jobs(&d).unwrap();
    assert_eq!(jobs.len(), 1);
    let ts = &jobs[0].translations;
    assert_eq!(ts.len(), 2);
    assert_eq!(ts[0].language, "fr");
    assert_eq!(ts[0].title, "Bonjour");
    assert_eq!(ts[0].description, "Description");
    assert_eq!(ts[0].requirements, "");
    assert_eq!(ts[1].language, "en");
    assert_eq!(ts[1].title, "");
    assert_eq!(ts[1].description, "");
    assert_eq!(ts[1].requirements, "Requirements");
}

#[test]
fn merge_updates_matching_entry_only() {
    let fields = vec![
        lang_field("title", "fr", "Tfr"),
        lang_field("title", "en", "Ten"),
        lang_field("description", "en", "Den"),
        lang_field("requirements", "fr", "Rfr"),
    ];
    let d = doc(vec![RecordNode { name: "job".to_string(), fields }]);
    let jobs = jobfeed::parse_xmlhotelleriejobs::parse_into_jobs(&d).unwrap();
    let ts = &jobs[0].translations;
    assert_eq!(ts.len(), 2);
    assert_eq!(ts[0].language, "fr");
    assert_eq!(ts[0].title, "Tfr");
    assert_eq!(ts[0].description, "");
    assert_eq!(ts[0].requirements, "Rfr");
    assert_eq!(ts[1].language, "en");
    assert_eq!(ts[1].title, "Ten");
    assert_eq!(ts[1].description, "Den");
    assert_eq!(ts[1].requirements, "");
}

#[test]
fn merge_defaults_missing_lang_to_english() {
    let fields = vec![field("title", "Plain"), lang_field("title", "en", "Tagged")];
    let d = doc(vec![RecordNode { name: "job".to_string(), fields }]);
    let jobs = jobfeed::parse_xmlhotelleriejobs::parse_into_jobs(&d).unwrap();
    let ts = &jobs[0].translations;
    assert_eq!(ts.len(), 1);
    assert_eq!(ts[0].language, "en");
    assert_eq!(ts[0].title, "Tagged");
}

#[test]
fn hotelleriejobs_reads_record_dictionary_leniently() {
    let fields = vec![
        field("unique_id", "H2"),
        field("schedule", "Sched"),
        field("category", "Cat"),
        field("city", "City"),
        field("province", "Prov"),
        field("application_method", "email"),
        field("application_destination", "a@b.c"),
        field("company_id", "C1"),
        field("company", "Co"),
        field("company_city", "CC"),
        field("company_postal_code", "H0H0H0"),
        field("company_logo_url", "http://logo"),
    ];
    let d = doc(vec![RecordNode { name: "job".to_string(), fields }]);
    let jobs = jobfeed::parse_xmlhotelleriejobs::parse_into_jobs(&d).unwrap();
    let job = &jobs[0];
    assert_eq!(job.id, "H2");
    assert_eq!(job.schedule, "Sched");
    assert_eq!(job.category, "Cat");
    assert_eq!(job.application_method, "email");
    assert_eq!(job.application_destination, "a@b.c");
    assert_eq!(job.company.id, "C1");
    assert_eq!(job.company.name, "Co");
    assert_eq!(job.company.city, "CC");
    assert_eq!(job.company.postal_code, "H0H0H0");
    assert_eq!(job.company.logo_url, "http://logo");
    assert_eq!(job.translations.len(), 0);
}

#[test]
fn hotelleriejobs_selects_only_job_records() {
    let d = doc(vec![
        RecordNode { name: "meta".to_string(), fields: vec![field("unique_id", "M")] },
        RecordNode { name: "job".to_string(), fields: vec![field("unique_id", "A")] },
        RecordNode { name: "job".to_string(), fields: vec![field("unique_id", "B")] },
    ]);
    let jobs = jobfeed::parse_xmlhotelleriejobs::parse_into_jobs(&d).unwrap();
    assert_eq!(jobs.len(), 2);
    assert_eq!(jobs[0].id, "A");
    assert_eq!(jobs[1].id, "B");
}
