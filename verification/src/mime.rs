use vstd::prelude::*;

use crate::text::same_text;

verus! {

/// The document kinds that an uploaded file can be recognised as.
#[derive(Debug, Clone, Copy, PartialEq, Eq, Structural)]
pub enum Mime {
    Pdf,
    Docx,
    Csv,
    Excel,
}

/// The kind that a MIME type string names, if it names one of the known kinds.
pub open spec fn mime_of(s: Seq<char>) -> Option<Mime> {
    if s == "application/pdf"@ {
        Some(Mime::Pdf)
    } else if s == "application/vnd.openxmlformats-officedocument.wordprocessingml.document"@ {
        Some(Mime::Docx)
    } else if s == "text/csv"@ {
        Some(Mime::Csv)
    } else if s == "application/vnd.openxmlformats-officedocument.spreadsheetml.sheet"@ {
        Some(Mime::Excel)
    } else if s == "application/vnd.ms-excel"@ {
        Some(Mime::Excel)
    } else {
        None
    }
}

impl Mime {
    /// Recognises a MIME type string; any other string is refused with `Err(())`.
    pub fn parse(s: &str) -> (r: Result<Mime, ()>)
        ensures
            match mime_of(s@) {
                Some(m) => r == Ok::<Mime, ()>(m),
                None => r == Err::<Mime, ()>(()),
            },
    {
        if same_text(s, "application/pdf") {
            Ok(Mime::Pdf)
        } else if same_text(
            s,
            "application/vnd.openxmlformats-officedocument.wordprocessingml.document",
        ) {
            Ok(Mime::Docx)
        } else if same_text(s, "text/csv") {
            Ok(Mime::Csv)
        } else if same_text(s, "application/vnd.openxmlformats-officedocument.spreadsheetml.sheet") {
            Ok(Mime::Excel)
        } else if same_text(s, "application/vnd.ms-excel") {
            Ok(Mime::Excel)
        } else {
            Err(())
        }
    }
}

impl std::str::FromStr for Mime {
    type Err = ();

    fn from_str(s: &str) -> (r: Result<Mime, ()>)
        ensures
            match mime_of(s@) {
                Some(m) => r == Ok::<Mime, ()>(m),
                None => r == Err::<Mime, ()>(()),
            },
    {
        Mime::parse(s)
    }
}

} // verus!
