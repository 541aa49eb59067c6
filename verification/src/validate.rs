//! Schema validation: raw bytes and a structural grammar go in, a
//! navigable document model or an ordered list of diagnostics comes out.
//!
//! The parsing and the validation itself are libxml2's work, reached
//! through the trusted wrappers below; everything the adapters later read
//! is copied out of the parsed tree into the crate's own document model.

use vstd::prelude::*;

use crate::common::XMLError;
use crate::xmldoc::{FieldNode, RecordNode, XmlAttr, XmlDocument};

verus! {

#[verifier::external_type_specification]
#[verifier::external_body]
pub struct ExParser(libxml::parser::Parser);

#[verifier::external_type_specification]
#[verifier::external_body]
pub struct ExDocument(libxml::tree::Document);

#[verifier::external_type_specification]
#[verifier::external_body]
pub struct ExNode(libxml::tree::Node);

#[verifier::external_type_specification]
#[verifier::external_body]
pub struct ExStructuredError(libxml::error::StructuredError);

#[verifier::external_type_specification]
#[verifier::external_body]
pub struct ExSchemaParserContext(libxml::schemas::SchemaParserContext);

#[verifier::external_type_specification]
#[verifier::external_body]
pub struct ExSchemaValidationContext(libxml::schemas::SchemaValidationContext);

/// Relies on libxml's `Parser::default`: a parser for XML documents.
#[verifier::external_body]
fn parser_new() -> libxml::parser::Parser {
    libxml::parser::Parser::default()
}

/// Relies on libxml's `Parser::parse_string`: parses the bytes into a
/// document tree, recovering from recoverable markup errors as libxml2's
/// default options do, and reports an error when no document can be
/// salvaged at all (also when the input is `i32::MAX` bytes or longer).
#[verifier::external_body]
fn parse_bytes(parser: &libxml::parser::Parser, file: &Vec<u8>) -> Option<
    libxml::tree::Document,
> {
    parser.parse_string(file).ok()
}

/// Relies on libxml's `SchemaParserContext::from_buffer`: reads a schema
/// definition held in memory. The buffer must be non-empty and no longer
/// than `i32::MAX` bytes — libxml2 refuses an empty or oversize buffer
/// with a null context, on which the libxml wrapper panics. Within these
/// bounds it panics only if libxml2 cannot allocate the context.
#[verifier::external_body]
fn schema_parser_from_buffer(xsd: &Vec<u8>) -> libxml::schemas::SchemaParserContext
    requires
        xsd@.len() > 0,
        xsd@.len() <= i32::MAX,
{
    libxml::schemas::SchemaParserContext::from_buffer(xsd)
}

/// Relies on libxml's `SchemaValidationContext::from_parser`: compiles the
/// schema, or hands back the errors its parser gathered when the schema
/// definition itself is not valid.
#[verifier::external_body]
fn schema_validation_from_parser(parser: &mut libxml::schemas::SchemaParserContext) -> Result<
    libxml::schemas::SchemaValidationContext,
    Vec<libxml::error::StructuredError>,
> {
    libxml::schemas::SchemaValidationContext::from_parser(parser)
}

/// Relies on libxml's `SchemaValidationContext::validate_document`: Ok
/// when the document satisfies the schema, otherwise the gathered
/// structural errors, in report order. Panics only on a libxml2-internal
/// failure.
#[verifier::external_body]
fn schema_validate_document(
    ctx: &mut libxml::schemas::SchemaValidationContext,
    doc: &libxml::tree::Document,
) -> Result<(), Vec<libxml::error::StructuredError>> {
    ctx.validate_document(doc)
}

/// Relies on the public fields of libxml's `StructuredError`: location,
/// message, severity level, error domain and numeric code of one finding.
/// An absent location reads as 0, an absent message as the empty string.
#[verifier::external_body]
fn xml_error_from(e: &libxml::error::StructuredError) -> XMLError {
    XMLError {
        line: e.line.unwrap_or(0),
        column: e.col.unwrap_or(0),
        message: e.message.clone().unwrap_or_default(),
        level: format!("{:?}", e.level),
        domain: e.domain.to_string(),
        code: e.code,
    }
}

/// Relies on libxml's `Document::get_root_element`: the root element, or
/// None for a document without one.
#[verifier::external_body]
fn doc_root(doc: &libxml::tree::Document) -> Option<libxml::tree::Node> {
    doc.get_root_element()
}

/// Relies on libxml's `Node::get_child_elements`: the element children of
/// the node, in document order, without text or comment nodes.
#[verifier::external_body]
fn node_children(node: &libxml::tree::Node) -> Vec<libxml::tree::Node> {
    node.get_child_elements()
}

/// Relies on libxml's `Node::get_name`: the element's name (empty for a
/// nameless node).
#[verifier::external_body]
fn node_name(node: &libxml::tree::Node) -> String {
    node.get_name()
}

/// Relies on libxml's `Node::get_content`: the text content of the node
/// and its descendants.
#[verifier::external_body]
fn node_content(node: &libxml::tree::Node) -> String {
    node.get_content()
}

/// Relies on libxml's `Node::get_attribute`: the attribute's value, or
/// None when the node has no such attribute. The name must be free of NUL
/// characters, which the underlying C string cannot carry.
#[verifier::external_body]
fn node_attribute(node: &libxml::tree::Node, name: &str) -> Option<String>
    requires
        forall|i: int| 0 <= i < name@.len() ==> name@[i] != '\u{0}',
{
    node.get_attribute(name)
}

/// Copies one finding per structural error, keeping the report order.
fn convert_errors(raw: &Vec<libxml::error::StructuredError>) -> (r: Vec<XMLError>)
    ensures
        r@.len() == raw@.len(),
{
    let mut out: Vec<XMLError> = Vec::new();
    let mut i: usize = 0;
    while i < raw.len()
        invariant
            i <= raw.len(),
            out@.len() == i,
        decreases raw.len() - i,
    {
        out.push(xml_error_from(&raw[i]));
        i = i + 1;
    }
    out
}

/// Copies out of one child element what an adapter may read of it: its
/// name, its `name` and `lang` attributes, and its text content.
fn build_field(node: &libxml::tree::Node) -> FieldNode {
    let mut attrs: Vec<XmlAttr> = Vec::new();
    proof {
        reveal_strlit("name");
        reveal_strlit("lang");
    }
    if let Some(v) = node_attribute(node, "name") {
        attrs.push(XmlAttr { key: "name".to_owned(), value: v });
    }
    if let Some(v) = node_attribute(node, "lang") {
        attrs.push(XmlAttr { key: "lang".to_owned(), value: v });
    }
    FieldNode { name: node_name(node), attrs, text: node_content(node) }
}

/// Copies one record-level node: its name and its child elements.
fn build_record(node: &libxml::tree::Node) -> RecordNode {
    let children = node_children(node);
    let mut fields: Vec<FieldNode> = Vec::new();
    let mut i: usize = 0;
    while i < children.len()
        decreases children.len() - i,
    {
        fields.push(build_field(&children[i]));
        i = i + 1;
    }
    RecordNode { name: node_name(node), fields }
}

/// Copies the validated tree into the crate's document model: the root's
/// name and, as records, the root's child elements. None for a document
/// without a root element.
fn build_document(doc: &libxml::tree::Document) -> Option<XmlDocument> {
    let root = match doc_root(doc) {
        Some(root) => root,
        None => {
            return None;
        },
    };
    let children = node_children(&root);
    let mut records: Vec<RecordNode> = Vec::new();
    let mut i: usize = 0;
    while i < children.len()
        decreases children.len() - i,
    {
        records.push(build_record(&children[i]));
        i = i + 1;
    }
    Some(XmlDocument { root_name: node_name(&root), records })
}

/// One diagnostic standing in for a whole failure: used when the input is
/// not well-formed markup, and when the validator rejects a document
/// without reporting a single finding, so that a rejection never comes
/// with an empty diagnostic list.
fn fatal_error(message: &str) -> (r: XMLError)
    ensures
        r@.message == message@,
{
    XMLError {
        line: 0,
        column: 0,
        message: message.to_owned(),
        level: "Fatal".to_owned(),
        domain: String::new(),
        code: 0,
    }
}

/// Parses the bytes and validates them against the schema definition given
/// as a second byte buffer. Ok carries the document model; Err carries the
/// ordered, never empty list of diagnostics of the whole validation pass.
/// An empty or oversize schema buffer — a broken grammar registry — is
/// itself rejected with a diagnostic, never a crash.
pub fn validate_against_xsd(file: &Vec<u8>, xsd: &Vec<u8>) -> (r: Result<XmlDocument, Vec<XMLError>>)
    ensures
        match r {
            Ok(_) => true,
            Err(errors) => errors@.len() >= 1,
        },
        xsd@.len() == 0 ==> (r matches Err(e) && e@.len() == 1 && e@[0]@.message
            == "schema definition is empty"@),
        xsd@.len() > i32::MAX ==> (r matches Err(e) && e@.len() == 1 && e@[0]@.message
            == "schema definition is too large"@),
{
    if xsd.len() == 0 {
        let mut errors: Vec<XMLError> = Vec::new();
        errors.push(fatal_error("schema definition is empty"));
        return Err(errors);
    }
    if xsd.len() > (i32::MAX as usize) {
        let mut errors: Vec<XMLError> = Vec::new();
        errors.push(fatal_error("schema definition is too large"));
        return Err(errors);
    }

    let parser = parser_new();
    let document = match parse_bytes(&parser, file) {
        Some(d) => d,
        None => {
            let mut errors: Vec<XMLError> = Vec::new();
            errors.push(fatal_error("file is not well-formed XML"));
            return Err(errors);
        },
    };

    let mut schema_parser = schema_parser_from_buffer(xsd);
    let mut schema_validation = match schema_validation_from_parser(&mut schema_parser) {
        Ok(v) => v,
        Err(raw) => {
            return Err(nonempty_errors(&raw));
        },
    };

    match schema_validate_document(&mut schema_validation, &document) {
        Ok(_) => match build_document(&document) {
            Some(model) => Ok(model),
            None => {
                let mut errors: Vec<XMLError> = Vec::new();
                errors.push(fatal_error("document has no root element"));
                Err(errors)
            },
        },
        Err(raw) => Err(nonempty_errors(&raw)),
    }
}

/// The converted findings, or a single stand-in when the report is empty:
/// a nonempty report is passed on whole, never cut to its first entry.
fn nonempty_errors(raw: &Vec<libxml::error::StructuredError>) -> (r: Vec<XMLError>)
    ensures
        r@.len() >= 1,
        raw@.len() > 0 ==> r@.len() == raw@.len(),
{
    let mut errors = convert_errors(raw);
    if errors.len() == 0 {
        errors.push(fatal_error("document does not satisfy the schema"));
    }
    errors
}

} // verus!
