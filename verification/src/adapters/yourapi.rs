//! The adapter for backends that page their tokens differently: everything
//! goes to the standard adapter but the token list, which such a backend
//! returns as a bare array, pages from 0, and gives no total for.
use crate::adapters::newapi::{
    listed_tokens, read_headers, spec_listed_tokens, spec_read_headers, NewApiAdapter,
};
use crate::http::{
    result_view, HttpMethod, HttpReply, HttpRequest, HttpRequestV, RelayError, RelayErrorV,
};
use crate::json::{Json, JsonV};
use crate::station::{
    RelayStation, RelayStationV, TokenPaginationResponse, TokenPaginationResponseV,
};
use vstd::prelude::*;

verus! {

/// The alternate-pagination adapter: it holds a standard adapter and forwards
/// to it.
#[derive(Debug, Clone, Copy, PartialEq, Eq, Structural)]
pub struct YourApiAdapter {
    pub newapi: NewApiAdapter,
}

/// A page request that can be served: pages count from 1, one item more than
/// the page size can be asked for, and the estimated total fits `i64`.
pub open spec fn spec_page_valid(page: usize, size: usize) -> bool {
    page >= 1 && size < usize::MAX && page * size + 1 <= i64::MAX
}

/// How many of `fetched` items a page of `size` shows.
pub open spec fn spec_shown(size: usize, fetched: nat) -> nat {
    if fetched > size {
        size as nat
    } else {
        fetched
    }
}

/// The total that a page suggests when the backend gives none. One item more
/// than the page holds is asked for: where it comes, there is a further page
/// and the total is only known to exceed `page * size`; where it does not,
/// this is the last page and the total is exact.
pub open spec fn spec_estimated_total(page: usize, size: usize, fetched: nat) -> int {
    if fetched > size {
        page * size + 1
    } else {
        (page - 1) * size + fetched
    }
}

pub open spec fn spec_invalid_page() -> RelayErrorV {
    RelayErrorV::Validation("Invalid page or page size"@)
}

pub fn page_valid(page: usize, size: usize) -> (r: bool)
    ensures
        r == spec_page_valid(page, size),
{
    if page < 1 || size == usize::MAX {
        return false;
    }
    assert(page * size <= 0xffff_ffff_ffff_ffff * 0xffff_ffff_ffff_ffff) by (nonlinear_arith)
        requires
            0 <= page <= 0xffff_ffff_ffff_ffff,
            0 <= size <= 0xffff_ffff_ffff_ffff,
    ;
    let product: u128 = (page as u128) * (size as u128);
    product < 0x7fff_ffff_ffff_ffff
}

impl YourApiAdapter {
    pub fn new() -> (r: Self)
        ensures
            r == (YourApiAdapter { newapi: NewApiAdapter }),
    {
        YourApiAdapter { newapi: NewApiAdapter }
    }

    /// The request for page `page` (counted from 1) of `size` tokens: the
    /// backend counts pages from 0 and is asked for one token more.
    pub open spec fn spec_list_tokens_request(station: RelayStationV, page: usize, size: usize) -> Result<
        HttpRequestV,
        RelayErrorV,
    > {
        if spec_page_valid(page, size) {
            Ok(
                HttpRequestV {
                    method: HttpMethod::Get,
                    url: NewApiAdapter::spec_list_tokens_url(
                        station.fields.api_url,
                        page - 1,
                        size + 1,
                    ),
                    headers: spec_read_headers(station),
                    body: None,
                    timeout_secs: None,
                },
            )
        } else {
            Err(spec_invalid_page())
        }
    }

    pub fn list_tokens_request(station: &RelayStation, page: usize, size: usize) -> (r: Result<
        HttpRequest,
        RelayError,
    >)
        ensures
            result_view(r) == Self::spec_list_tokens_request(station.deep_view(), page, size),
    {
        if !page_valid(page, size) {
            return Err(RelayError::Validation(String::from_str("Invalid page or page size")));
        }
        Ok(
            HttpRequest {
                method: HttpMethod::Get,
                url: NewApiAdapter::list_tokens_url(station.api_url.as_str(), page - 1, size + 1),
                headers: read_headers(station),
                body: None,
                timeout_secs: None,
            },
        )
    }

    /// The page that a token-list document holds: `data` is the array of
    /// tokens itself. At most `size` of them are shown.
    pub open spec fn spec_list_tokens(station: RelayStationV, page: usize, size: usize, doc: JsonV) -> Result<
        TokenPaginationResponseV,
        RelayErrorV,
    > {
        if !spec_page_valid(page, size) {
            Err(spec_invalid_page())
        } else {
            match doc.member("data"@).as_array() {
                None => Err(
                    RelayErrorV::Upstream("Invalid response format: data is not an array"@),
                ),
                Some(tokens) => Ok(
                    TokenPaginationResponseV {
                        items: spec_listed_tokens(
                            station.id,
                            tokens.take(spec_shown(size, tokens.len()) as int),
                            true,
                        ),
                        page,
                        page_size: size,
                        total: spec_estimated_total(page, size, tokens.len()) as i64,
                    },
                ),
            }
        }
    }

    pub fn list_tokens_from_json(station: &RelayStation, page: usize, size: usize, doc: &Json) -> (r: Result<
        TokenPaginationResponse,
        RelayError,
    >)
        ensures
            result_view(r) == Self::spec_list_tokens(station.deep_view(), page, size, doc@),
            r matches Ok(p) ==> forall|i: int|
                0 <= i < p.items@.len() ==> (#[trigger] p.items@[i]).expires_at != Some(-1i64),
    {
        if !page_valid(page, size) {
            return Err(RelayError::Validation(String::from_str("Invalid page or page size")));
        }
        let found = match doc.get("data") {
            Some(d) => d.as_array(),
            None => None,
        };
        let tokens = match found {
            Some(t) => t,
            None => {
                return Err(
                    RelayError::Upstream(
                        String::from_str("Invalid response format: data is not an array"),
                    ),
                );
            },
        };
        let has_more = tokens.len() > size;
        let shown: usize = if has_more {
            size
        } else {
            tokens.len()
        };
        let items = listed_tokens(station.id.as_str(), tokens, shown, true);
        assert((page - 1) * size + size == page * size && (page - 1) * size >= 0)
            by (nonlinear_arith)
            requires
                page >= 1,
                size >= 0,
        ;
        let product: u128 = (page as u128) * (size as u128);
        let before: u128 = ((page - 1) as u128) * (size as u128);
        let total: u128 = if has_more {
            product + 1
        } else {
            before + (shown as u128)
        };
        Ok(TokenPaginationResponse { items, page, page_size: size, total: total as i64 })
    }

    /// Reads the reply to `list_tokens_request`.
    pub fn list_tokens(station: &RelayStation, page: usize, size: usize, reply: &HttpReply) -> (r: Result<
        TokenPaginationResponse,
        RelayError,
    >)
        ensures
            result_view(r) == (match reply.deep_view().parsed_document("Failed to list tokens: "@) {
                Ok(doc) => Self::spec_list_tokens(station.deep_view(), page, size, doc),
                Err(e) => Err(e),
            }),
            r matches Ok(p) ==> forall|i: int|
                0 <= i < p.items@.len() ==> (#[trigger] p.items@[i]).expires_at != Some(-1i64),
    {
        match reply.document("Failed to list tokens: ") {
            Ok(doc) => Self::list_tokens_from_json(station, page, size, &doc),
            Err(e) => Err(e),
        }
    }
}

/// On a page that the backend does not fill beyond its size, the total is the
/// number of tokens up to and including that page, and it names no further
/// page; on a page with one token more, the total names a further page.
pub proof fn law_estimated_total(page: usize, size: usize, fetched: nat)
    requires
        spec_page_valid(page, size),
    ensures
        fetched <= size ==> spec_estimated_total(page, size, fetched) == (page - 1) * size
            + spec_shown(size, fetched) && spec_estimated_total(page, size, fetched) <= page * size,
        fetched > size ==> spec_estimated_total(page, size, fetched) > page * size,
        0 <= spec_estimated_total(page, size, fetched) <= i64::MAX,
{
    assert((page - 1) * size + size == page * size) by (nonlinear_arith);
    assert((page - 1) * size >= 0) by (nonlinear_arith)
        requires
            page >= 1,
            size >= 0,
    ;
    assert(page * size >= 0) by (nonlinear_arith)
        requires
            page >= 1,
            size >= 0,
    ;
}

} // verus!
