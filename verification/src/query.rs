use vstd::prelude::*;
use vstd::string::StringExecFns;
use crate::digits::dec_spec;
use crate::digits::dec_string;
use crate::ident::Tempmail;

verus! {

/// The fixed base endpoint of the provider API.
pub open spec fn api_url_spec() -> Seq<char> {
    "https://www.1secmail.com/api/v1/"@
}

/// Base endpoint text; every request goes against this URL.
pub fn api_url() -> (r: &'static str)
    ensures
        r@ == api_url_spec(),
{
    "https://www.1secmail.com/api/v1/"
}

/// Full URL of one GET: the base endpoint, `?`, and the query string.
pub open spec fn request_url_spec(query: Seq<char>) -> Seq<char> {
    api_url_spec() + "?"@ + query
}

/// Builds the full URL for a query string.
pub fn request_url(query: &str) -> (r: String)
    ensures
        r@ == request_url_spec(query@),
{
    let mut s = String::from_str(api_url());
    s.append("?");
    s.append(query);
    proof {
        assert(s@ =~= request_url_spec(query@));
    }
    s
}

/// Query of the listing call for a mailbox.
pub open spec fn list_query_spec(t: Tempmail) -> Seq<char> {
    "action=getMessages&login="@ + t.username@ + "&domain="@ + t.domain.render_spec()
}

/// Query of the read call for one message of a mailbox.
pub open spec fn read_query_spec(t: Tempmail, id: nat) -> Seq<char> {
    "action=readMessage&login="@ + t.username@ + "&domain="@ + t.domain.render_spec() + "&id="@
        + dec_spec(id)
}

/// Query of the download call for one attachment of a message.
pub open spec fn download_query_spec(t: Tempmail, id: nat, filename: Seq<char>) -> Seq<char> {
    "action=download&login="@ + t.username@ + "&domain="@ + t.domain.render_spec() + "&id="@
        + dec_spec(id) + "&file="@ + filename
}

impl Tempmail {
    /// The query string that lists this mailbox's message summaries.
    pub fn list_query(&self) -> (r: String)
        ensures
            r@ == list_query_spec(*self),
    {
        let mut s = String::from_str("action=getMessages&login=");
        s.append(self.username.as_str());
        s.append("&domain=");
        s.append(self.domain.render());
        proof {
            assert(s@ =~= list_query_spec(*self));
        }
        s
    }

    /// The query string that reads the full message with the given id.
    pub fn read_query(&self, id: usize) -> (r: String)
        ensures
            r@ == read_query_spec(*self, id as nat),
    {
        let mut s = String::from_str("action=readMessage&login=");
        s.append(self.username.as_str());
        s.append("&domain=");
        s.append(self.domain.render());
        s.append("&id=");
        let d = dec_string(id as u64);
        s.append(d.as_str());
        proof {
            assert(s@ =~= read_query_spec(*self, id as nat));
        }
        s
    }

    /// The query string that downloads one attachment of a message, by the
    /// filename observed in the message's attachment list.
    pub fn download_query(&self, id: usize, filename: &str) -> (r: String)
        ensures
            r@ == download_query_spec(*self, id as nat, filename@),
    {
        let mut s = String::from_str("action=download&login=");
        s.append(self.username.as_str());
        s.append("&domain=");
        s.append(self.domain.render());
        s.append("&id=");
        let d = dec_string(id as u64);
        s.append(d.as_str());
        s.append("&file=");
        s.append(filename);
        proof {
            assert(s@ =~= download_query_spec(*self, id as nat, filename@));
        }
        s
    }
}

} // verus!
