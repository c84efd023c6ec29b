//! Informational messages the HTTP layer reports.

use vstd::prelude::*;

verus! {

/// Application-level notices.
#[derive(Debug, Clone, PartialEq, Eq)]
pub enum AppInfo {
    SecurityConfigSecure,
    SecurityConfigNotSecure,
    OriginAllowed(String),
    OriginNotAllowed(String),
    GeneratedSignature(String),
    ValidatedSignature(bool),
    ExpectedApiKey(String),
}

/// Image-processing notices.
#[derive(Debug, Clone, PartialEq, Eq)]
pub enum ImageInfo {
    ImageProcessedSuccessfully(String),
    ImageConvertedSuccessfully(String),
}

impl AppInfo {
    /// The notice as text.
    pub fn message(&self) -> (r: String)
        ensures
            r@ == match self {
                AppInfo::SecurityConfigSecure => "Security configuration is secure."@,
                AppInfo::SecurityConfigNotSecure => "Security configuration is not secure."@,
                AppInfo::OriginAllowed(origin) => "Origin "@ + origin@ + " is allowed."@,
                AppInfo::OriginNotAllowed(origin) => "Origin "@ + origin@ + " is not allowed."@,
                AppInfo::GeneratedSignature(sig) => "Generated signature: "@ + sig@,
                AppInfo::ValidatedSignature(valid) => if *valid {
                    "Signature is valid: true"@
                } else {
                    "Signature is valid: false"@
                },
                AppInfo::ExpectedApiKey(key) => "Expected API key: '"@ + key@ + "'"@,
            },
    {
        match self {
            AppInfo::SecurityConfigSecure => "Security configuration is secure.".to_owned(),
            AppInfo::SecurityConfigNotSecure => "Security configuration is not secure.".to_owned(),
            AppInfo::OriginAllowed(origin) => {
                let mut s = "Origin ".to_owned();
                s.push_str(origin.as_str());
                s.push_str(" is allowed.");
                s
            },
            AppInfo::OriginNotAllowed(origin) => {
                let mut s = "Origin ".to_owned();
                s.push_str(origin.as_str());
                s.push_str(" is not allowed.");
                s
            },
            AppInfo::GeneratedSignature(sig) => {
                let mut s = "Generated signature: ".to_owned();
                s.push_str(sig.as_str());
                s
            },
            AppInfo::ValidatedSignature(valid) => {
                if *valid {
                    "Signature is valid: true".to_owned()
                } else {
                    "Signature is valid: false".to_owned()
                }
            },
            AppInfo::ExpectedApiKey(key) => {
                let mut s = "Expected API key: '".to_owned();
                s.push_str(key.as_str());
                s.push_str("'");
                s
            },
        }
    }
}

impl ImageInfo {
    /// The notice as text.
    pub fn message(&self) -> (r: String)
        ensures
            r@ == match self {
                ImageInfo::ImageProcessedSuccessfully(path) => "Image processed successfully: "@
                    + path@,
                ImageInfo::ImageConvertedSuccessfully(path) => "Image converted successfully: "@
                    + path@,
            },
    {
        match self {
            ImageInfo::ImageProcessedSuccessfully(path) => {
                let mut s = "Image processed successfully: ".to_owned();
                s.push_str(path.as_str());
                s
            },
            ImageInfo::ImageConvertedSuccessfully(path) => {
                let mut s = "Image converted successfully: ".to_owned();
                s.push_str(path.as_str());
                s
            },
        }
    }
}

} // verus!
