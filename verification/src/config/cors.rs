use vstd::prelude::*;

verus! {

/// An HTTP method that CORS may allow; named in settings in upper case.
#[derive(Debug, Clone, Copy, PartialEq, Eq, Structural)]
pub enum HttpMethod {
    Get,
    Post,
    Put,
    Delete,
    Patch,
    Options,
}

/// The name of each method as it is written in settings and on the wire.
pub open spec fn method_name(m: HttpMethod) -> Seq<char> {
    match m {
        HttpMethod::Get => "GET"@,
        HttpMethod::Post => "POST"@,
        HttpMethod::Put => "PUT"@,
        HttpMethod::Delete => "DELETE"@,
        HttpMethod::Patch => "PATCH"@,
        HttpMethod::Options => "OPTIONS"@,
    }
}

/// Different methods have different names, so a method's name parses back
/// to that method.
pub proof fn lemma_method_names_distinct(a: HttpMethod, b: HttpMethod)
    ensures
        method_name(a) == method_name(b) ==> a == b,
{
    reveal_strlit("GET");
    reveal_strlit("POST");
    reveal_strlit("PUT");
    reveal_strlit("DELETE");
    reveal_strlit("PATCH");
    reveal_strlit("OPTIONS");
    if method_name(a) == method_name(b) {
        assert(method_name(a).len() == method_name(b).len());
        assert(method_name(a)[0] == method_name(b)[0]);
    }
}

impl HttpMethod {
    /// The method's name in upper case.
    pub fn as_str(&self) -> (r: &'static str)
        ensures
            r@ == method_name(*self),
    {
        match self {
            HttpMethod::Get => "GET",
            HttpMethod::Post => "POST",
            HttpMethod::Put => "PUT",
            HttpMethod::Delete => "DELETE",
            HttpMethod::Patch => "PATCH",
            HttpMethod::Options => "OPTIONS",
        }
    }

    /// The method of an upper-case name, as settings write it; `None` for any other text.
    pub fn parse(name: &str) -> (r: Option<HttpMethod>)
        ensures
            match r {
                Some(m) => method_name(m) == name@,
                None => forall|m: HttpMethod| method_name(m) != name@,
            },
    {
        let n = String::from_str(name);
        if n == String::from_str("GET") {
            Some(HttpMethod::Get)
        } else if n == String::from_str("POST") {
            Some(HttpMethod::Post)
        } else if n == String::from_str("PUT") {
            Some(HttpMethod::Put)
        } else if n == String::from_str("DELETE") {
            Some(HttpMethod::Delete)
        } else if n == String::from_str("PATCH") {
            Some(HttpMethod::Patch)
        } else if n == String::from_str("OPTIONS") {
            Some(HttpMethod::Options)
        } else {
            None
        }
    }
}

/// Which origins CORS lets through: any, one, or a list.
#[derive(Debug, PartialEq, Eq)]
pub enum AllowedOrigins {
    /// Written in settings as "any" or "*".
    Any,
    /// One origin, such as "http://localhost:3000".
    Single(String),
    /// Several origins.
    List(Vec<String>),
}

/// The texts of a list of strings.
pub open spec fn texts_view(l: Seq<String>) -> Seq<Seq<char>> {
    l.map_values(|s: String| s@)
}

/// The value of an origin setting.
pub enum AllowedOriginsView {
    Any,
    Single(Seq<char>),
    List(Seq<Seq<char>>),
}

impl View for AllowedOrigins {
    type V = AllowedOriginsView;

    open spec fn view(&self) -> AllowedOriginsView {
        match self {
            AllowedOrigins::Any => AllowedOriginsView::Any,
            AllowedOrigins::Single(s) => AllowedOriginsView::Single(s@),
            AllowedOrigins::List(l) => AllowedOriginsView::List(texts_view(l@)),
        }
    }
}

/// Whether an origin setting lets `origin` through.
pub open spec fn origin_allowed(o: AllowedOriginsView, origin: Seq<char>) -> bool {
    match o {
        AllowedOriginsView::Any => true,
        AllowedOriginsView::Single(s) => s == origin,
        AllowedOriginsView::List(l) => l.contains(origin),
    }
}

/// Which origins a setting lets through: every one for "any", exactly the
/// configured one for a single origin, and for a list exactly those equal to
/// some entry, so each entry of a list is let through.
pub proof fn law_origin_membership(o: AllowedOriginsView, origin: Seq<char>)
    ensures
        o is Any ==> origin_allowed(o, origin),
        o matches AllowedOriginsView::Single(s) ==> (origin_allowed(o, origin) <==> s == origin),
        o matches AllowedOriginsView::List(l) ==> (origin_allowed(o, origin) <==> exists|i: int|
            0 <= i < l.len() && l[i] == origin),
        o matches AllowedOriginsView::List(l) ==> forall|i: int|
            0 <= i < l.len() ==> origin_allowed(o, #[trigger] l[i]),
{
    if let AllowedOriginsView::List(l) = o {
        assert forall|i: int| 0 <= i < l.len() implies origin_allowed(o, #[trigger] l[i]) by {
            assert(l.contains(l[i]));
        }
    }
}

/// The origins of a setting as a list; "*" stands for any.
pub open spec fn origin_list(o: AllowedOriginsView) -> Seq<Seq<char>> {
    match o {
        AllowedOriginsView::Any => seq!["*"@],
        AllowedOriginsView::Single(s) => seq![s],
        AllowedOriginsView::List(l) => l,
    }
}

/// Whether a single text written in settings means any origin.
pub open spec fn means_any(s: Seq<char>) -> bool {
    s == "any"@ || s == "*"@
}

impl AllowedOrigins {
    /// The setting that a single text in the settings stands for: "any" and
    /// "*" mean any origin, any other text is one origin.
    pub fn from_text(value: String) -> (r: AllowedOrigins)
        ensures
            means_any(value@) ==> r@ == AllowedOriginsView::Any,
            !means_any(value@) ==> r@ == AllowedOriginsView::Single(value@),
    {
        if value == String::from_str("any") || value == String::from_str("*") {
            AllowedOrigins::Any
        } else {
            AllowedOrigins::Single(value)
        }
    }

    /// Whether every origin is allowed.
    pub fn allows_any(&self) -> (r: bool)
        ensures
            r == (self@ is Any),
    {
        match self {
            AllowedOrigins::Any => true,
            _ => false,
        }
    }

    /// Whether the given origin is allowed.
    pub fn is_allowed(&self, origin: &str) -> (r: bool)
        ensures
            r == origin_allowed(self@, origin@),
    {
        let o = String::from_str(origin);
        match self {
            AllowedOrigins::Any => true,
            AllowedOrigins::Single(s) => *s == o,
            AllowedOrigins::List(l) => {
                let ghost lv = texts_view(l@);
                let mut i: usize = 0;
                while i < l.len()
                    invariant
                        i <= l@.len(),
                        lv == texts_view(l@),
                        self@ == AllowedOriginsView::List(lv),
                        o@ == origin@,
                        forall|j: int| 0 <= j < i ==> l@[j]@ != origin@,
                    decreases l@.len() - i,
                {
                    if l[i] == o {
                        assert(lv[i as int] == origin@);
                        assert(lv.contains(origin@));
                        return true;
                    }
                    i = i + 1;
                }
                assert(!lv.contains(origin@)) by {
                    if lv.contains(origin@) {
                        let j = choose|j: int| 0 <= j < lv.len() && lv[j] == origin@;
                        assert(lv[j] == l@[j]@);
                    }
                }
                false
            },
        }
    }

    /// The allowed origins as a list of texts, "*" for any.
    pub fn to_vec(&self) -> (r: Vec<String>)
        ensures
            texts_view(r@) == origin_list(self@),
    {
        match self {
            AllowedOrigins::Any => {
                let mut v: Vec<String> = Vec::new();
                v.push(String::from_str("*"));
                assert(texts_view(v@) =~= seq!["*"@]);
                v
            },
            AllowedOrigins::Single(s) => {
                let mut v: Vec<String> = Vec::new();
                v.push(s.clone());
                assert(texts_view(v@) =~= seq![s@]);
                v
            },
            AllowedOrigins::List(l) => {
                let mut v: Vec<String> = Vec::new();
                let mut i: usize = 0;
                while i < l.len()
                    invariant
                        i <= l@.len(),
                        v@.len() == i,
                        forall|j: int| 0 <= j < i ==> v@[j]@ == l@[j]@,
                    decreases l@.len() - i,
                {
                    v.push(l[i].clone());
                    i = i + 1;
                }
                assert(texts_view(v@) =~= texts_view(l@));
                v
            },
        }
    }
}

/// CORS settings: allowed origins and methods, and how long a preflight answer may be cached.
#[derive(Debug)]
pub struct CorsConfig {
    pub allowed_origin: AllowedOrigins,
    pub allowed_methods: Vec<HttpMethod>,
    pub max_age: u64,
}

} // verus!
