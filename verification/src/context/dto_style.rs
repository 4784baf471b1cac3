use vstd::prelude::*;

verus! {

/// How request and response DTOs are written.
#[derive(Debug, Clone, Copy, PartialEq, Eq, Structural)]
pub enum DtoStyle {
    Record,
    Class,
}

impl Default for DtoStyle {
    /// Java records are the default.
    fn default() -> (r: Self)
        ensures
            r == DtoStyle::Record,
    {
        DtoStyle::Record
    }
}

impl DtoStyle {
    /// Every DTO style, in the order the picker shows them.
    pub fn all() -> (r: &'static [DtoStyle])
        ensures
            r@ == seq![DtoStyle::Record, DtoStyle::Class],
    {
        let r: &'static [DtoStyle] = &[DtoStyle::Record, DtoStyle::Class];
        r
    }

    pub open spec fn spec_label(self) -> Seq<char> {
        match self {
            DtoStyle::Record => "Java 14+ Records"@,
            DtoStyle::Class => "Classic Classes (Lombok)"@,
        }
    }

    /// The text the picker shows for this style.
    pub fn label(&self) -> (r: &'static str)
        ensures
            r@ == self.spec_label(),
    {
        match self {
            DtoStyle::Record => "Java 14+ Records",
            DtoStyle::Class => "Classic Classes (Lombok)",
        }
    }

    pub open spec fn spec_request_template(self) -> Seq<char> {
        match self {
            DtoStyle::Record => "dto/request_record.java.tera"@,
            DtoStyle::Class => "dto/request_class.java.tera"@,
        }
    }

    /// The template that renders the request DTO.
    pub fn request_template(&self) -> (r: &'static str)
        ensures
            r@ == self.spec_request_template(),
    {
        match self {
            DtoStyle::Record => "dto/request_record.java.tera",
            DtoStyle::Class => "dto/request_class.java.tera",
        }
    }

    pub open spec fn spec_response_template(self) -> Seq<char> {
        match self {
            DtoStyle::Record => "dto/response_record.java.tera"@,
            DtoStyle::Class => "dto/response_class.java.tera"@,
        }
    }

    /// The template that renders the response DTO.
    pub fn response_template(&self) -> (r: &'static str)
        ensures
            r@ == self.spec_response_template(),
    {
        match self {
            DtoStyle::Record => "dto/response_record.java.tera",
            DtoStyle::Class => "dto/response_class.java.tera",
        }
    }
}

} // verus!
