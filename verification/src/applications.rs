//! Participants' applications: the document kinds of the mandatory package,
//! the checks on an uploaded file, and how a stored file is sealed and opened
//! again.
use vstd::prelude::*;

use crate::dto::unknown_db_message;
use crate::error::ApiError;
use crate::file_crypto::{decrypted, file_crypto_message, FileCipher, FileCryptoError, P_MAX};
use crate::number::signed_decimal_digits;
use crate::text::{chars_of, str_equal, string_of};

verus! {

/// The kind of a document of the application package.
#[derive(Debug, Clone, Copy, PartialEq, Eq, Structural)]
pub enum ApplicationDocumentKindDto {
    ApplicationForm,
    RegistrationCertificate,
    TaxClearance,
    GuaranteePayment,
    QualificationDocuments,
    Legacy,
}

pub open spec fn document_kind_name(kind: ApplicationDocumentKindDto) -> Seq<char> {
    match kind {
        ApplicationDocumentKindDto::ApplicationForm => "application_form"@,
        ApplicationDocumentKindDto::RegistrationCertificate => "registration_certificate"@,
        ApplicationDocumentKindDto::TaxClearance => "tax_clearance"@,
        ApplicationDocumentKindDto::GuaranteePayment => "guarantee_payment"@,
        ApplicationDocumentKindDto::QualificationDocuments => "qualification_documents"@,
        ApplicationDocumentKindDto::Legacy => "legacy"@,
    }
}

/// The kind whose database name is `raw`, if any.
pub open spec fn document_kind_from_name(raw: Seq<char>) -> Option<ApplicationDocumentKindDto> {
    if raw == "application_form"@ {
        Some(ApplicationDocumentKindDto::ApplicationForm)
    } else if raw == "registration_certificate"@ {
        Some(ApplicationDocumentKindDto::RegistrationCertificate)
    } else if raw == "tax_clearance"@ {
        Some(ApplicationDocumentKindDto::TaxClearance)
    } else if raw == "guarantee_payment"@ {
        Some(ApplicationDocumentKindDto::GuaranteePayment)
    } else if raw == "qualification_documents"@ {
        Some(ApplicationDocumentKindDto::QualificationDocuments)
    } else if raw == "legacy"@ {
        Some(ApplicationDocumentKindDto::Legacy)
    } else {
        None
    }
}

/// The internal error of an unknown document kind.
pub open spec fn unknown_document_kind_message(raw: Seq<char>) -> Seq<char> {
    "unknown application_document_kind: "@ + raw
}

/// The refusal of the reserved `legacy` kind in a new upload.
pub open spec fn legacy_rejection() -> Seq<char> {
    "тип legacy зарезервирован для файлов, загруженных до введения обязательного пакета"@
}

impl ApplicationDocumentKindDto {
    pub fn as_db(self) -> (name: &'static str)
        ensures
            name@ == document_kind_name(self),
    {
        match self {
            ApplicationDocumentKindDto::ApplicationForm => "application_form",
            ApplicationDocumentKindDto::RegistrationCertificate => "registration_certificate",
            ApplicationDocumentKindDto::TaxClearance => "tax_clearance",
            ApplicationDocumentKindDto::GuaranteePayment => "guarantee_payment",
            ApplicationDocumentKindDto::QualificationDocuments => "qualification_documents",
            ApplicationDocumentKindDto::Legacy => "legacy",
        }
    }

    pub fn from_db(raw: &str) -> (result: Result<Self, ApiError>)
        ensures
            match document_kind_from_name(raw@) {
                Some(v) => result == Ok::<_, ApiError>(v),
                None => result matches Err(ApiError::Internal(m)) && m@
                    == unknown_document_kind_message(raw@),
            },
    {
        if str_equal(raw, "application_form") {
            Ok(ApplicationDocumentKindDto::ApplicationForm)
        } else if str_equal(raw, "registration_certificate") {
            Ok(ApplicationDocumentKindDto::RegistrationCertificate)
        } else if str_equal(raw, "tax_clearance") {
            Ok(ApplicationDocumentKindDto::TaxClearance)
        } else if str_equal(raw, "guarantee_payment") {
            Ok(ApplicationDocumentKindDto::GuaranteePayment)
        } else if str_equal(raw, "qualification_documents") {
            Ok(ApplicationDocumentKindDto::QualificationDocuments)
        } else if str_equal(raw, "legacy") {
            Ok(ApplicationDocumentKindDto::Legacy)
        } else {
            let mut text = chars_of("unknown application_document_kind: ");
            let mut tail = chars_of(raw);
            text.append(&mut tail);
            Err(ApiError::internal(string_of(text.as_slice())))
        }
    }

    /// The database name of a kind that a new upload may carry: every kind
    /// but `legacy`.
    pub fn required(self) -> (result: Result<&'static str, ApiError>)
        ensures
            match result {
                Ok(name) => self != ApplicationDocumentKindDto::Legacy && name@
                    == document_kind_name(self),
                Err(e) => self == ApplicationDocumentKindDto::Legacy && (e matches ApiError::Validation(
                    m,
                ) && m@ == legacy_rejection()),
            },
    {
        match self {
            ApplicationDocumentKindDto::Legacy => Err(
                ApiError::Validation(
                    "тип legacy зарезервирован для файлов, загруженных до введения обязательного пакета".to_owned(),
                ),
            ),
            _ => Ok(self.as_db()),
        }
    }
}

/// A database name written by `as_db` reads back as the same kind.
pub proof fn document_kind_round_trip(v: ApplicationDocumentKindDto)
    ensures
        document_kind_from_name(document_kind_name(v)) == Some(v),
{
    reveal_strlit("application_form");
    reveal_strlit("registration_certificate");
    reveal_strlit("tax_clearance");
    reveal_strlit("guarantee_payment");
    reveal_strlit("qualification_documents");
    reveal_strlit("legacy");
    assert("application_form"@[0] == 'a');
    assert("registration_certificate"@[0] == 'r');
    assert("tax_clearance"@[0] == 't');
    assert("guarantee_payment"@[0] == 'g');
    assert("qualification_documents"@[0] == 'q');
    assert("legacy"@[0] == 'l');
}

/// The query of a file upload: which document of the package it is.
pub struct UploadApplicationFileQuery {
    pub document_kind: ApplicationDocumentKindDto,
}

/// The applicant's details (Annex 2).
pub struct ApplicantDetailsDto {
    pub name: String,
    pub id_number: String,
    pub address: String,
    pub phone: String,
    pub email: Option<String>,
}

/// The refusal of a package file that is not a PDF.
pub open spec fn package_pdf_rejection() -> Seq<char> {
    "пакет заявки принимается только в формате PDF"@
}

/// Seals a file of the package for storage: only a PDF is accepted, and the
/// stored envelope opens, with the same key and application, to the very
/// bytes that were uploaded.
pub fn seal_package_file(
    cipher: &FileCipher,
    application_id: u128,
    content_type: &str,
    bytes: &[u8],
) -> (result: Result<Vec<u8>, ApiError>)
    ensures
        content_type@ != "application/pdf"@ ==> (result matches Err(
            ApiError::UnsupportedMediaType(m),
        ) && m@ == package_pdf_rejection()),
        result matches Ok(envelope) ==> content_type@ == "application/pdf"@ && decrypted(
            cipher.master(),
            application_id,
            envelope@,
        ) == Ok::<Seq<u8>, FileCryptoError>(bytes@),
        content_type@ == "application/pdf"@ && bytes@.len() <= P_MAX ==> result is Ok,
        content_type@ == "application/pdf"@ && result is Err ==> (result matches Err(
            ApiError::Internal(m),
        ) && m@ == file_crypto_message(FileCryptoError::Encryption)),
{
    if !str_equal(content_type, "application/pdf") {
        return Err(
            ApiError::UnsupportedMediaType("пакет заявки принимается только в формате PDF".to_owned()),
        );
    }
    match cipher.encrypt(application_id, bytes) {
        Ok(envelope) => Ok(envelope),
        Err(e) => Err(ApiError::internal(e.message())),
    }
}

/// The internal error of a stored file in an unknown envelope version.
pub open spec fn unknown_version_message(version: i32) -> Seq<char> {
    "unsupported application file encryption version: "@ + crate::number::signed_decimal(
        version as int,
    )
}

/// The plaintext of a stored file: version 0 was stored as is, version 1 in
/// an encrypted envelope; any other version is an internal error.
pub fn stored_file_plaintext(
    cipher: &FileCipher,
    application_id: u128,
    version: i32,
    stored: &[u8],
) -> (result: Result<Vec<u8>, ApiError>)
    ensures
        version == 0 ==> (result matches Ok(p) && p@ == stored@),
        version == 1 ==> match decrypted(cipher.master(), application_id, stored@) {
            Ok(p) => (result matches Ok(q) && q@ == p),
            Err(e) => (result matches Err(ApiError::Internal(m)) && m@ == file_crypto_message(e)),
        },
        version != 0 && version != 1 ==> (result matches Err(ApiError::Internal(m)) && m@
            == unknown_version_message(version)),
{
    if version == 0 {
        let mut copy: Vec<u8> = Vec::new();
        let mut i: usize = 0;
        while i < stored.len()
            invariant
                i <= stored.len(),
                copy@ == stored@.take(i as int),
            decreases stored.len() - i,
        {
            copy.push(stored[i]);
            proof {
                assert(stored@.take(i + 1) == stored@.take(i as int).push(stored@[i as int]));
            }
            i = i + 1;
        }
        assert(stored@.take(stored@.len() as int) == stored@);
        Ok(copy)
    } else if version == 1 {
        match cipher.decrypt(application_id, stored) {
            Ok(plaintext) => Ok(plaintext),
            Err(e) => Err(ApiError::internal(e.message())),
        }
    } else {
        let mut text = chars_of("unsupported application file encryption version: ");
        let mut digits = signed_decimal_digits(version as i128);
        text.append(&mut digits);
        Err(ApiError::internal(string_of(text.as_slice())))
    }
}

} // verus!
