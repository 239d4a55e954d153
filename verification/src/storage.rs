//! What the tick store is asked and what it answers.

use crate::text::decimal;
use crate::text::decimal_of;
use crate::text::form_encode;
use crate::text::form_encoded;
use vstd::prelude::*;
use vstd::string::StringSliceAdditionalSpecFns;
use vstd::string::StringExecFns;

verus! {

/// The store's report of a query that it could not run.
#[derive(Debug)]
pub struct SQLError {
    pub query: String,
    pub error: String,
    pub position: i32,
}

/// The rows that a query gave.
#[derive(Clone, Debug)]
pub struct QueryResult<T> {
    pub data: Vec<T>,
}

impl SQLError {
    /// The report as one line of text.
    pub fn describe(&self) -> (r: String)
        ensures
            r@ == "Error '"@ + self.error@ + "' with '"@ + self.query@ + "' at position '"@
                + decimal_of(self.position as int) + "'"@,
    {
        let position = decimal(self.position as i128);
        let mut text = "Error '".to_owned();
        text.append(self.error.as_str());
        text.append("' with '");
        text.append(self.query.as_str());
        text.append("' at position '");
        text.append(position.as_str());
        text.append("'");
        text
    }
}

/// The first row that a page holds where none is asked for.
pub open spec fn lower_limit(limit_lower: Option<usize>) -> usize {
    match limit_lower {
        Some(n) => n,
        None => 0,
    }
}

/// The end of a page: the one asked for, or the largest page.
pub open spec fn upper_limit(limit_upper: Option<usize>, max_page_size: usize) -> usize {
    match limit_upper {
        Some(n) => n,
        None => max_page_size,
    }
}

/// The address at which the store at `base` runs `query` and gives the rows
/// from `limit_lower` (zero where none is given) to `limit_upper` (the
/// largest page where none is given). The query is form-encoded.
pub fn exec_url(
    base: &String,
    query: &str,
    limit_lower: &Option<usize>,
    limit_upper: &Option<usize>,
    max_page_size: usize,
) -> (r: String)
    ensures
        r@ == base@ + "/exec?count=true&query="@ + form_encoded(query.spec_bytes()) + "&limit="@
            + decimal_of(lower_limit(*limit_lower) as int) + ","@ + decimal_of(
            upper_limit(*limit_upper, max_page_size) as int,
        ),
{
    let lower: usize = match limit_lower {
        Some(n) => *n,
        None => 0,
    };
    let upper: usize = match limit_upper {
        Some(n) => *n,
        None => max_page_size,
    };
    let encoded_query = form_encode(query);
    let lower_text = decimal(lower as i128);
    let upper_text = decimal(upper as i128);
    let mut url = base.clone();
    url.append("/exec?count=true&query=");
    url.append(encoded_query.as_str());
    url.append("&limit=");
    url.append(lower_text.as_str());
    url.append(",");
    url.append(upper_text.as_str());
    url
}

} // verus!
