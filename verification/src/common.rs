//! The canonical record shapes that every vendor adapter converges on, and
//! the diagnostic shapes shared by the validator and the adapters.

use vstd::prelude::*;

verus! {

/// The company attached to a job record. Absent fields hold the empty
/// string, never a null marker.
#[derive(Debug)]
pub struct Company {
    pub id: String,
    pub name: String,
    pub city: String,
    pub postal_code: String,
    pub logo_url: String,
}

#[verifier::ext_equal]
pub ghost struct CompanyView {
    pub id: Seq<char>,
    pub name: Seq<char>,
    pub city: Seq<char>,
    pub postal_code: Seq<char>,
    pub logo_url: Seq<char>,
}

impl View for Company {
    type V = CompanyView;

    open spec fn view(&self) -> CompanyView {
        CompanyView {
            id: self.id@,
            name: self.name@,
            city: self.city@,
            postal_code: self.postal_code@,
            logo_url: self.logo_url@,
        }
    }
}

impl CompanyView {
    /// The value every field defaults to: empty everywhere.
    pub open spec fn empty() -> CompanyView {
        CompanyView {
            id: Seq::<char>::empty(),
            name: Seq::<char>::empty(),
            city: Seq::<char>::empty(),
            postal_code: Seq::<char>::empty(),
            logo_url: Seq::<char>::empty(),
        }
    }
}

impl Default for Company {
    fn default() -> (r: Self)
        ensures
            r@ == CompanyView::empty(),
    {
        let r = Company {
            id: String::new(),
            name: String::new(),
            city: String::new(),
            postal_code: String::new(),
            logo_url: String::new(),
        };
        proof {
            assert(r@ =~= CompanyView::empty());
        }
        r
    }
}

/// One language edition of a job's textual content. The language tag is a
/// short code ("en", "fr") or, for some vendors, a job-code value used as a
/// pseudo-language key.
#[derive(Debug)]
pub struct Translation {
    pub language: String,
    pub title: String,
    pub description: String,
    pub requirements: String,
}

#[verifier::ext_equal]
pub ghost struct TranslationView {
    pub language: Seq<char>,
    pub title: Seq<char>,
    pub description: Seq<char>,
    pub requirements: Seq<char>,
}

impl View for Translation {
    type V = TranslationView;

    open spec fn view(&self) -> TranslationView {
        TranslationView {
            language: self.language@,
            title: self.title@,
            description: self.description@,
            requirements: self.requirements@,
        }
    }
}

impl Default for Translation {
    fn default() -> (r: Self)
        ensures
            r@.language == Seq::<char>::empty(),
            r@.title == Seq::<char>::empty(),
            r@.description == Seq::<char>::empty(),
            r@.requirements == Seq::<char>::empty(),
    {
        Translation {
            language: String::new(),
            title: String::new(),
            description: String::new(),
            requirements: String::new(),
        }
    }
}

/// The canonical job record.
#[derive(Debug)]
pub struct Job {
    pub id: String,
    pub schedule: String,
    pub category: String,
    pub city: String,
    pub province: String,
    pub application_method: String,
    pub application_destination: String,
    pub company: Company,
    pub translations: Vec<Translation>,
}

#[verifier::ext_equal]
pub ghost struct JobView {
    pub id: Seq<char>,
    pub schedule: Seq<char>,
    pub category: Seq<char>,
    pub city: Seq<char>,
    pub province: Seq<char>,
    pub application_method: Seq<char>,
    pub application_destination: Seq<char>,
    pub company: CompanyView,
    pub translations: Seq<TranslationView>,
}

impl View for Job {
    type V = JobView;

    open spec fn view(&self) -> JobView {
        JobView {
            id: self.id@,
            schedule: self.schedule@,
            category: self.category@,
            city: self.city@,
            province: self.province@,
            application_method: self.application_method@,
            application_destination: self.application_destination@,
            company: self.company@,
            translations: Seq::new(
                self.translations@.len(),
                |i: int| self.translations@[i]@,
            ),
        }
    }
}

/// One structural-validation finding: location, message, severity, domain
/// and numeric code, as reported by the schema validator.
#[derive(Debug)]
pub struct XMLError {
    pub line: i32,
    pub column: i32,
    pub message: String,
    pub level: String,
    pub domain: String,
    pub code: i32,
}

#[verifier::ext_equal]
pub ghost struct XMLErrorView {
    pub line: i32,
    pub column: i32,
    pub message: Seq<char>,
    pub level: Seq<char>,
    pub domain: Seq<char>,
    pub code: i32,
}

impl View for XMLError {
    type V = XMLErrorView;

    open spec fn view(&self) -> XMLErrorView {
        XMLErrorView {
            line: self.line,
            column: self.column,
            message: self.message@,
            level: self.level@,
            domain: self.domain@,
            code: self.code,
        }
    }
}

/// A conversion failure: a human-readable message, plus the validator's
/// diagnostics when (and only when) the failure came from schema
/// validation. A failure found later, during field extraction, carries an
/// empty diagnostic list.
#[derive(Debug)]
pub struct ParseError {
    pub message: String,
    pub xml_errors: Vec<XMLError>,
}

#[verifier::ext_equal]
pub ghost struct ParseErrorView {
    pub message: Seq<char>,
    pub xml_errors: Seq<XMLErrorView>,
}

impl View for ParseError {
    type V = ParseErrorView;

    open spec fn view(&self) -> ParseErrorView {
        ParseErrorView {
            message: self.message@,
            xml_errors: Seq::new(self.xml_errors@.len(), |i: int| self.xml_errors@[i]@),
        }
    }
}

/// The view of a job sequence, element by element.
pub open spec fn jobs_view(s: Seq<Job>) -> Seq<JobView> {
    Seq::new(s.len(), |i: int| s[i]@)
}

/// The view of a diagnostic sequence, element by element.
pub open spec fn errors_view(s: Seq<XMLError>) -> Seq<XMLErrorView> {
    Seq::new(s.len(), |i: int| s[i]@)
}

} // verus!
