//! Request methods.

use vstd::prelude::*;

verus! {

/// The error of the `http` crate for text that is not a method.
#[verifier::external_type_specification]
#[verifier::external_body]
pub struct ExInvalidMethod(http::method::InvalidMethod);

/// A request method, as the SDK names it.
#[derive(Debug)]
pub enum Method {
    Get,
    Head,
    Post,
    Put,
    Delete,
    Patch,
    /// A method that has no name here, by its text.
    Other(String),
}

/// A character of an HTTP token.
pub open spec fn is_token_char(c: char) -> bool {
    ||| 'a' <= c <= 'z'
    ||| 'A' <= c <= 'Z'
    ||| '0' <= c <= '9'
    ||| c == '!'
    ||| c == '#'
    ||| c == '$'
    ||| c == '%'
    ||| c == '&'
    ||| c == '\''
    ||| c == '*'
    ||| c == '+'
    ||| c == '-'
    ||| c == '.'
    ||| c == '^'
    ||| c == '_'
    ||| c == '`'
    ||| c == '|'
    ||| c == '~'
}

/// An HTTP token: one or more token characters.
pub open spec fn is_token(s: Seq<char>) -> bool {
    &&& s.len() > 0
    &&& forall|i: int| 0 <= i < s.len() ==> is_token_char(#[trigger] s[i])
}

impl Method {
    /// The text of the method in a request line.
    pub open spec fn text(self) -> Seq<char> {
        match self {
            Method::Get => "GET"@,
            Method::Head => "HEAD"@,
            Method::Post => "POST"@,
            Method::Put => "PUT"@,
            Method::Delete => "DELETE"@,
            Method::Patch => "PATCH"@,
            Method::Other(text) => text@,
        }
    }
}

/// `http::Method::from_str`, with the method's own text (`as_str`) as the
/// result. A method is any token, and keeps its text, case included; other
/// text is refused.
#[verifier::external_body]
fn parse_method(text: &str) -> (r: Result<String, http::method::InvalidMethod>)
    ensures
        r is Ok <==> is_token(text@),
        r matches Ok(method) ==> method@ == text@,
{
    <http::Method as std::str::FromStr>::from_str(text).map(|m| m.as_str().to_owned())
}

/// Every named method is a token, and so never refused.
pub proof fn named_methods_are_tokens(method: Method)
    requires
        !(method is Other),
    ensures
        is_token(method.text()),
{
    reveal_strlit("GET");
    reveal_strlit("HEAD");
    reveal_strlit("POST");
    reveal_strlit("PUT");
    reveal_strlit("DELETE");
    reveal_strlit("PATCH");
}

/// The text of the method of an outbound request. A method that is not a token
/// is refused.
pub fn from_method(method: &Method) -> (r: Result<String, http::method::InvalidMethod>)
    ensures
        r is Ok <==> is_token(method.text()),
        r matches Ok(text) ==> text@ == method.text(),
        !(method is Other) ==> r is Ok,
{
    proof {
        if !(method is Other) {
            named_methods_are_tokens(*method);
        }
    }
    match method {
        Method::Get => Ok("GET".to_owned()),
        Method::Head => Ok("HEAD".to_owned()),
        Method::Post => Ok("POST".to_owned()),
        Method::Put => Ok("PUT".to_owned()),
        Method::Delete => Ok("DELETE".to_owned()),
        Method::Patch => Ok("PATCH".to_owned()),
        Method::Other(text) => parse_method(text.as_str()),
    }
}

} // verus!
