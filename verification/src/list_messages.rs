use crate::codec::{comma_joined, decimal_of, decimal_string, join_with_commas};
use crate::http::{HttpMethod, RequestPlan};
use vstd::prelude::*;
use vstd::string::StringExecFns;

verus! {

/// A message-listing query. `next`, when present, is a provider-issued
/// continuation link that encodes the provider-side pagination state: the
/// next fetch uses it verbatim and every other parameter is ignored.
#[derive(Clone, Debug)]
pub struct ListMessagesRequest {
    pub next: Option<String>,
    pub filter: Option<String>,
    pub select: Vec<String>,
    pub top: Option<u32>,
    pub skip: Option<u32>,
    pub order_by: Option<String>,
    pub mailbox: Option<String>,
}

impl ListMessagesRequest {
    pub fn new() -> (r: ListMessagesRequest)
        ensures
            r.next is None,
            r.filter is None,
            r.select@.len() == 0,
            r.top is None,
            r.skip is None,
            r.order_by is None,
            r.mailbox is None,
    {
        ListMessagesRequest {
            next: None,
            filter: None,
            select: Vec::new(),
            top: None,
            skip: None,
            order_by: None,
            mailbox: None,
        }
    }

    pub fn filter(self, filter: String) -> (r: ListMessagesRequest)
        ensures
            (r == ListMessagesRequest { filter: Some(filter), ..self }),
    {
        ListMessagesRequest { filter: Some(filter), ..self }
    }

    pub fn select(self, select: Vec<String>) -> (r: ListMessagesRequest)
        ensures
            (r == ListMessagesRequest { select, ..self }),
    {
        ListMessagesRequest { select, ..self }
    }

    pub fn top(self, top: u32) -> (r: ListMessagesRequest)
        ensures
            (r == ListMessagesRequest { top: Some(top), ..self }),
    {
        ListMessagesRequest { top: Some(top), ..self }
    }

    pub fn skip(self, skip: u32) -> (r: ListMessagesRequest)
        ensures
            (r == ListMessagesRequest { skip: Some(skip), ..self }),
    {
        ListMessagesRequest { skip: Some(skip), ..self }
    }

    pub fn order_by(self, order_by: String) -> (r: ListMessagesRequest)
        ensures
            (r == ListMessagesRequest { order_by: Some(order_by), ..self }),
    {
        ListMessagesRequest { order_by: Some(order_by), ..self }
    }

    /// Continue from a provider-issued link.
    pub fn next(self, next: String) -> (r: ListMessagesRequest)
        ensures
            (r == ListMessagesRequest { next: Some(next), ..self }),
    {
        ListMessagesRequest { next: Some(next), ..self }
    }

    pub fn mailbox(self, mailbox: String) -> (r: ListMessagesRequest)
        ensures
            (r == ListMessagesRequest { mailbox: Some(mailbox), ..self }),
    {
        ListMessagesRequest { mailbox: Some(mailbox), ..self }
    }

    /// The path a fresh (cursor-less) fetch uses: the optional mailbox
    /// override, or the caller's own mailbox.
    pub open spec fn spec_path(&self) -> Seq<char> {
        match self.mailbox {
            Some(m) => "/users/"@ + m@ + "/messages"@,
            None => "/me/messages"@,
        }
    }

    /// The query a fresh fetch carries: each supplied option, in this fixed
    /// order, and nothing else.
    pub open spec fn spec_query(&self) -> Seq<(Seq<char>, Seq<char>)> {
        (if self.select@.len() > 0 {
            seq![("$select"@, comma_joined(self.select.deep_view()))]
        } else {
            Seq::<(Seq<char>, Seq<char>)>::empty()
        }) + (match self.filter {
            Some(f) => seq![("$filter"@, f@)],
            None => Seq::<(Seq<char>, Seq<char>)>::empty(),
        }) + (match self.top {
            Some(t) => seq![("$top"@, decimal_of(t as nat))],
            None => Seq::<(Seq<char>, Seq<char>)>::empty(),
        }) + (match self.skip {
            Some(k) => seq![("$skip"@, decimal_of(k as nat))],
            None => Seq::<(Seq<char>, Seq<char>)>::empty(),
        }) + (match self.order_by {
            Some(o) => seq![("$orderby"@, o@)],
            None => Seq::<(Seq<char>, Seq<char>)>::empty(),
        })
    }

    /// The call this query stands for. Once a continuation link is present it
    /// is used verbatim and every caller-specified filter, select, top, skip
    /// and order parameter is ignored; a fresh fetch carries exactly the
    /// supplied parameters.
    pub fn build_plan(&self) -> (p: RequestPlan)
        ensures
            p.method is Get,
            p.headers@.len() == 0,
            match self.next {
                Some(n) => p.url@ == n@ && p.query@.len() == 0,
                None => p.url@ == self.spec_path() && p.query.deep_view() == self.spec_query(),
            },
    {
        match &self.next {
            Some(n) => RequestPlan {
                method: HttpMethod::Get,
                url: n.clone(),
                query: Vec::new(),
                headers: Vec::new(),
            },
            None => {
                let url = match &self.mailbox {
                    Some(m) => {
                        let mut u = "/users/".to_owned();
                        u.append(m.as_str());
                        u.append("/messages");
                        u
                    },
                    None => "/me/messages".to_owned(),
                };
                let mut query: Vec<(String, String)> = Vec::new();
                let ghost seg_select = (if self.select@.len() > 0 {
                    seq![("$select"@, comma_joined(self.select.deep_view()))]
                } else {
                    Seq::<(Seq<char>, Seq<char>)>::empty()
                });
                let ghost seg_filter = (match &self.filter {
                    Some(f) => seq![("$filter"@, f@)],
                    None => Seq::<(Seq<char>, Seq<char>)>::empty(),
                });
                let ghost seg_top = (match self.top {
                    Some(t) => seq![("$top"@, decimal_of(t as nat))],
                    None => Seq::<(Seq<char>, Seq<char>)>::empty(),
                });
                let ghost seg_skip = (match self.skip {
                    Some(k) => seq![("$skip"@, decimal_of(k as nat))],
                    None => Seq::<(Seq<char>, Seq<char>)>::empty(),
                });
                let ghost seg_order = (match &self.order_by {
                    Some(o) => seq![("$orderby"@, o@)],
                    None => Seq::<(Seq<char>, Seq<char>)>::empty(),
                });
                if self.select.len() > 0 {
                    query.push(("$select".to_owned(), join_with_commas(&self.select)));
                }
                proof {
                    assert(query.deep_view() =~= seg_select);
                }
                if let Some(f) = &self.filter {
                    query.push(("$filter".to_owned(), f.clone()));
                }
                proof {
                    assert(query.deep_view() =~= seg_select + seg_filter);
                }
                if let Some(t) = &self.top {
                    query.push(("$top".to_owned(), decimal_string(*t)));
                }
                proof {
                    assert(query.deep_view() =~= seg_select + seg_filter + seg_top);
                }
                if let Some(k) = &self.skip {
                    query.push(("$skip".to_owned(), decimal_string(*k)));
                }
                proof {
                    assert(query.deep_view() =~= seg_select + seg_filter + seg_top + seg_skip);
                }
                if let Some(o) = &self.order_by {
                    query.push(("$orderby".to_owned(), o.clone()));
                }
                proof {
                    assert(query.deep_view() =~= seg_select + seg_filter + seg_top + seg_skip
                        + seg_order);
                }
                RequestPlan { method: HttpMethod::Get, url, query, headers: Vec::new() }
            },
        }
    }
}

} // verus!
