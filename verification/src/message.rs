use vstd::prelude::*;

verus! {

/// A structured request: method, target URI, header pairs in order, byte body.
/// A value is immutable once rendered; callbacks may produce a rewritten copy.
#[derive(Debug)]
pub struct Request {
    pub method: String,
    pub uri: String,
    pub headers: Vec<(String, String)>,
    pub body: Vec<u8>,
}

/// A completed response: status code, header pairs in order, byte body.
#[derive(Debug)]
pub struct Response {
    pub status: u16,
    pub headers: Vec<(String, String)>,
    pub body: Vec<u8>,
}

impl Request {
    /// A GET request for `uri`, with no headers and an empty body.
    pub fn get(uri: String) -> (r: Request)
        ensures
            r.method@ == "GET"@,
            r.uri@ == uri@,
            r.headers@ == Seq::<(String, String)>::empty(),
            r.body@ == Seq::<u8>::empty(),
    {
        Request {
            method: String::from_str("GET"),
            uri,
            headers: Vec::new(),
            body: Vec::new(),
        }
    }

    /// A POST request for `uri` carrying `body`, with no headers.
    pub fn post(uri: String, body: Vec<u8>) -> (r: Request)
        ensures
            r.method@ == "POST"@,
            r.uri@ == uri@,
            r.headers@ == Seq::<(String, String)>::empty(),
            r.body@ == body@,
    {
        Request {
            method: String::from_str("POST"),
            uri,
            headers: Vec::new(),
            body,
        }
    }

    /// Appends one header pair, keeping everything else as it was.
    pub fn append_header(&mut self, name: String, value: String)
        ensures
            final(self).method == old(self).method,
            final(self).uri == old(self).uri,
            final(self).headers@ == old(self).headers@.push((name, value)),
            final(self).body == old(self).body,
    {
        self.headers.push((name, value));
    }
}

impl Response {
    /// A response with the given status and body, and no headers.
    pub fn new(status: u16, body: Vec<u8>) -> (r: Response)
        ensures
            r.status == status,
            r.headers@ == Seq::<(String, String)>::empty(),
            r.body@ == body@,
    {
        Response { status, headers: Vec::new(), body }
    }

    /// The value of the first header named `name`, if any.
    pub fn header_value(&self, name: &String) -> (r: Option<&String>)
        ensures
            match r {
                Some(v) => exists|i: int|
                    0 <= i < self.headers@.len() && self.headers@[i].0@ == name@
                        && self.headers@[i].1 == v && (forall|j: int|
                        0 <= j < i ==> self.headers@[j].0@ != name@),
                None => forall|i: int|
                    0 <= i < self.headers@.len() ==> self.headers@[i].0@ != name@,
            },
    {
        let mut k: usize = 0;
        while k < self.headers.len()
            invariant
                k <= self.headers@.len(),
                forall|j: int| 0 <= j < k ==> self.headers@[j].0@ != name@,
            decreases self.headers@.len() - k,
        {
            if self.headers[k].0.eq(name) {
                return Some(&self.headers[k].1);
            }
            k += 1;
        }
        None
    }
}

} // verus!
