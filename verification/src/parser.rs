use vstd::prelude::*;

verus! {

use crate::error::MrzError;
use crate::mrz_field::{MrzField, FieldModel};

/// The mathematical content of the field table of a parse result: one
/// optional field model per canonical field name. An absent entry means
/// the field does not apply to the detected format.
pub ghost struct FieldsModel {
    pub document_type: Option<FieldModel>,
    pub country_code: Option<FieldModel>,
    pub name: Option<FieldModel>,
    pub document_number: Option<FieldModel>,
    pub nationality: Option<FieldModel>,
    pub birthdate: Option<FieldModel>,
    pub sex: Option<FieldModel>,
    pub expiry_date: Option<FieldModel>,
    pub optional_data_1: Option<FieldModel>,
    pub optional_data_2: Option<FieldModel>,
    pub final_check_digit: Option<FieldModel>,
}

/// The mathematical content of a whole parse result.
pub ghost struct ResultModel {
    pub is_visa: bool,
    pub is_valid: bool,
    pub fields: FieldsModel,
    pub issuing_state: Seq<char>,
}

/// The decoded fields of one document, one entry per canonical field
/// name; entries that do not apply to the detected format are `None`.
#[derive(Debug)]
pub struct MrzFields {
    pub document_type: Option<MrzField>,
    pub country_code: Option<MrzField>,
    pub name: Option<MrzField>,
    pub document_number: Option<MrzField>,
    pub nationality: Option<MrzField>,
    pub birthdate: Option<MrzField>,
    pub sex: Option<MrzField>,
    pub expiry_date: Option<MrzField>,
    pub optional_data_1: Option<MrzField>,
    pub optional_data_2: Option<MrzField>,
    pub final_check_digit: Option<MrzField>,
}

/// The view of an optional field.
pub open spec fn opt_field_view(o: Option<MrzField>) -> Option<FieldModel> {
    match o {
        Some(f) => Some(f@),
        None => None,
    }
}

impl View for MrzFields {
    type V = FieldsModel;

    open spec fn view(&self) -> FieldsModel {
        FieldsModel {
            document_type: opt_field_view(self.document_type),
            country_code: opt_field_view(self.country_code),
            name: opt_field_view(self.name),
            document_number: opt_field_view(self.document_number),
            nationality: opt_field_view(self.nationality),
            birthdate: opt_field_view(self.birthdate),
            sex: opt_field_view(self.sex),
            expiry_date: opt_field_view(self.expiry_date),
            optional_data_1: opt_field_view(self.optional_data_1),
            optional_data_2: opt_field_view(self.optional_data_2),
            final_check_digit: opt_field_view(self.final_check_digit),
        }
    }
}

/// The outcome of parsing one document: the decoded fields, the overall
/// validity verdict, the visa marker, and the resolved issuing state.
#[derive(Debug)]
pub struct MRZResult {
    pub is_visa: bool,
    pub is_valid: bool,
    pub fields: MrzFields,
    pub issuing_state: String,
}

impl View for MRZResult {
    type V = ResultModel;

    open spec fn view(&self) -> ResultModel {
        ResultModel {
            is_visa: self.is_visa,
            is_valid: self.is_valid,
            fields: self.fields@,
            issuing_state: self.issuing_state@,
        }
    }
}

/// The character sequences of a vector of input lines.
pub open spec fn lines_view(lines: Seq<String>) -> Seq<Seq<char>> {
    lines.map_values(|s: String| s@)
}

/// Whether the parse result `r` carries the model result `m`.
pub open spec fn result_matches(
    r: Result<MRZResult, MrzError>,
    m: Result<ResultModel, MrzError>,
) -> bool {
    match (r, m) {
        (Ok(res), Ok(rm)) => res@ == rm,
        (Err(e), Err(f)) => e == f,
        _ => false,
    }
}

/// The interface of a format-specific layout parser. Each implementation
/// strengthens `parse` with the exact field layout of its format.
pub trait IMRZParser {
    /// Parses pre-split MRZ lines into a structured result.
    fn parse(&self, input: &Vec<String>) -> Result<MRZResult, MrzError>;
}

} // verus!
