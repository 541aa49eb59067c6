use jobfeed::xmldoc::{FieldNode, RecordNode, XmlAttr, XmlDocument};

fn field(name: &str, text: &str) -> FieldNode {
    FieldNode { name: name.to_string(), attrs: vec![], text: text.to_string() }
}

fn named_field(key: &str, text: &str) -> FieldNode {
    FieldNode {
        name: "field".to_string(),
        attrs: vec![XmlAttr { key: "name".to_string(), value: key.to_string() }],
        text: text.to_string(),
    }
}

fn doc(records: Vec<RecordNode>) -> XmlDocument {
    XmlDocument { root_name: "jobs".to_string(), records }
}

fn tidan_fields() -> Vec<FieldNode> {
    vec![
        field("businessProcessId", "J1"),
        field("typedemploi", "FT"),
        field("categorie1", "a"),
        field("categorie2", "b"),
        field("categorie3", "c"),
        field("ville", "Montreal"),
        field("province", "QC"),
        field("applyUrl", "http://apply"),
        field("company", "Acme"),
        field("jobCode", "JC1"),
        field("title", "T"),
        field("description", "D"),
        field("education", "E"),
        field("experience", "X"),
    ]
}

#[test]
fn defaults_hold_empty_strings() {
    let c = jobfeed::common::Company::default();
    assert_eq!(c.id, "");
    assert_eq!(c.name, "");
    assert_eq!(c.city, "");
    assert_eq!(c.postal_code, "");
    assert_eq!(c.logo_url, "");
    let t = jobfeed::common::Translation::default();
    assert_eq!(t.language, "");
    assert_eq!(t.title, "");
    assert_eq!(t.description, "");
    assert_eq!(t.requirements, "");
}

#[test]
fn tidan_composes_category_and_requirements() {
    let d = doc(vec![RecordNode { name: "job".to_string(), fields: tidan_fields() }]);
    let jobs = jobfeed::parse_xmltidan::parse_into_jobs(&d).unwrap();
    assert_eq!(jobs.len(), 1);
    let job = &jobs[0];
    assert_eq!(job.id, "J1");
    assert_eq!(job.schedule, "FT");
    assert_eq!(job.category, "a,b,c");
    assert_eq!(job.city, "Montreal");
    assert_eq!(job.province, "QC");
    assert_eq!(job.application_method, "url");
    assert_eq!(job.application_destination, "http://apply");
    assert_eq!(job.company.name, "Acme");
    assert_eq!(job.company.id, "");
    assert_eq!(job.translations.len(), 1);
    assert_eq!(job.translations[0].language, "JC1");
    assert_eq!(job.translations[0].title, "T");
    assert_eq!(job.translations[0].description, "D");
    assert_eq!(job.translations[0].requirements, "E\nX");
}

#[test]
fn tidan_strict_fails_on_missing_field() {
    let fields: Vec<FieldNode> =
        tidan_fields().into_iter().filter(|f| f.name != "categorie2").collect();
    let d = doc(vec![RecordNode { name: "job".to_string(), fields }]);
    let err = jobfeed::parse_xmltidan::parse_into_jobs(&d).unwrap_err();
    assert_eq!(err, "required field is missing: categorie2");
}

#[test]
fn tidan_later_duplicate_field_wins() {
    let mut fields = tidan_fields();
    fields.push(field("title", "T2"));
    let d = doc(vec![RecordNode { name: "job".to_string(), fields }]);
    let jobs = jobfeed::parse_xmltidan::parse_into_jobs(&d).unwrap();
    assert_eq!(jobs[0].translations[0].title, "T2");
}

#[test]
fn grandio_extracts_with_empty_requirements() {
    let fields = vec![
        field("businessProcessId", "G1"),
        field("Schedule", "S"),
        field("Position", "P"),
        field("city", "C"),
        field("state", "ST"),
        field("applyUrl", "U"),
        field("Restaurant", "R"),
        field("jobCode", "JC"),
        field("title", "T"),
        field("description", "D"),
    ];
    let d = doc(vec![RecordNode { name: "row".to_string(), fields }]);
    let jobs = jobfeed::parse_xmlgrandio::parse_into_jobs(&d).unwrap();
    assert_eq!(jobs.len(), 1);
    let job = &jobs[0];
    assert_eq!(job.id, "G1");
    assert_eq!(job.category, "P");
    assert_eq!(job.application_method, "url");
    assert_eq!(job.company.name, "R");
    assert_eq!(job.translations.len(), 1);
    assert_eq!(job.translations[0].language, "JC");
    assert_eq!(job.translations[0].requirements, "");
}

#[test]
fn grandio_strict_fails_on_missing_field() {
    let fields = vec![field("businessProcessId", "G1")];
    let d = doc(vec![RecordNode { name: "row".to_string(), fields }]);
    let err = jobfeed::parse_xmlgrandio::parse_into_jobs(&d).unwrap_err();
    assert_eq!(err, "required field is missing: Schedule");
}

fn pscout_fields() -> Vec<FieldNode> {
    vec![
        named_field("JobReferenceNumber", "PS1"),
        named_field("Schedule", "S"),
        named_field("Category", "C"),
        named_field("PraimaryCity", "PC"),
        named_field("state", "ST"),
        named_field("UrlforJobPosting", "U"),
        named_field("PropertyBrand", "B"),
        named_field("JobTitle_FR", "TF"),
        named_field("JobDescription_FR", "DF"),
        named_field("JobQualification_FR", "QF"),
        named_field("JobTitle_EN", "TE"),
        named_field("JobDescription_EN", "DE"),
        named_field("JobQualification_EN", "QE"),
    ]
}

#[test]
fn pscout_is_fixed_bilingual() {
    let d = doc(vec![RecordNode { name: "job".to_string(), fields: pscout_fields() }]);
    let jobs = jobfeed::parse_xmlpscout::parse_into_jobs(&d).unwrap();
    assert_eq!(jobs.len(), 1);
    let job = &jobs[0];
    assert_eq!(job.id, "PS1");
    assert_eq!(job.city, "PC");
    assert_eq!(job.company.name, "B");
    assert_eq!(job.translations.len(), 2);
    assert_eq!(job.translations[0].language, "fr");
    assert_eq!(job.translations[0].title, "TF");
    assert_eq!(job.translations[0].description, "DF");
    assert_eq!(job.translations[0].requirements, "QF");
    assert_eq!(job.translations[1].language, "en");
    assert_eq!(job.translations[1].title, "TE");
    assert_eq!(job.translations[1].description, "DE");
    assert_eq!(job.translations[1].requirements, "QE");
}

#[test]
fn pscout_strict_fails_on_missing_attribute_field() {
    let fields: Vec<FieldNode> = pscout_fields()
        .into_iter()
        .filter(|f| f.attrs[0].value != "JobQualification_EN")
        .collect();
    let d = doc(vec![RecordNode { name: "job".to_string(), fields }]);
    let err = jobfeed::parse_xmlpscout::parse_into_jobs(&d).unwrap_err();
    assert_eq!(err, "required field is missing: JobQualification_EN");
}

#[test]
fn zohoquintessence_lenient_defaults_to_empty() {
    let fields = vec![field("title", "T"), field("experience", "X")];
    let d = doc(vec![
        RecordNode { name: "job".to_string(), fields },
        RecordNode { name: "meta".to_string(), fields: vec![field("title", "ignored")] },
    ]);
    let jobs = jobfeed::parse_xmlzohoquintessence::parse_into_jobs(&d).unwrap();
    assert_eq!(jobs.len(), 1);
    let job = &jobs[0];
    assert_eq!(job.id, "");
    assert_eq!(job.schedule, "");
    assert_eq!(job.application_method, "url");
    assert_eq!(job.translations.len(), 1);
    assert_eq!(job.translations[0].language, "en");
    assert_eq!(job.translations[0].title, "T");
    assert_eq!(job.translations[0].requirements, "X");
}

fn zohorecruit_fields() -> Vec<FieldNode> {
    vec![
        named_field("Reference Number", "Z1"),
        named_field("Type d\u{2019}emploi", "Full"),
        named_field("Secteur d'activit\u{e9}", "Hosp"),
        named_field("Ville", "V"),
        named_field("\u{c9}tat/Province", "QC"),
        named_field("R\u{e9}sidence", "Res"),
        named_field("Titre de la publication", "TT"),
        named_field("Description du poste", "DD"),
    ]
}

#[test]
fn zohorecruit_resolves_typographic_apostrophe() {
    let d = doc(vec![RecordNode { name: "job".to_string(), fields: zohorecruit_fields() }]);
    let jobs = jobfeed::parse_xmlzohorecruit::parse_into_jobs(&d).unwrap();
    assert_eq!(jobs.len(), 1);
    let job = &jobs[0];
    assert_eq!(job.id, "Z1");
    assert_eq!(job.schedule, "Full");
    assert_eq!(job.category, "Hosp");
    assert_eq!(job.city, "V");
    assert_eq!(job.province, "QC");
    assert_eq!(job.application_destination, "");
    assert_eq!(job.company.name, "Res");
    assert_eq!(job.translations.len(), 1);
    assert_eq!(job.translations[0].language, "fr");
    assert_eq!(job.translations[0].title, "TT");
    assert_eq!(job.translations[0].description, "DD");
    assert_eq!(job.translations[0].requirements, "");
}

#[test]
fn zohorecruit_both_apostrophe_spellings_agree() {
    let straight = {
        let mut fields = zohorecruit_fields();
        fields[1] = named_field("Type d'emploi", "Full");
        let d = doc(vec![RecordNode { name: "job".to_string(), fields }]);
        jobfeed::parse_xmlzohorecruit::parse_into_jobs(&d).unwrap()
    };
    let typographic = {
        let d = doc(vec![RecordNode { name: "job".to_string(), fields: zohorecruit_fields() }]);
        jobfeed::parse_xmlzohorecruit::parse_into_jobs(&d).unwrap()
    };
    assert_eq!(straight[0].schedule, typographic[0].schedule);
    assert_eq!(straight[0].schedule, "Full");
}

#[test]
fn zohorecruit_strict_fails_on_missing_field() {
    let fields: Vec<FieldNode> =
        zohorecruit_fields().into_iter().filter(|f| f.attrs[0].value != "Ville").collect();
    let d = doc(vec![RecordNode { name: "job".to_string(), fields }]);
    let err = jobfeed::parse_xmlzohorecruit::parse_into_jobs(&d).unwrap_err();
    assert_eq!(err, "required field is missing: Ville");
}
