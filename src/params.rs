//! The job parameters and the envelope that carries exactly one of them.
use vstd::prelude::*;

verus! {

/// Whether `s` is braced: it opens with `{` and closes with `}`. This is the
/// outer shape of a JSON object; what stands between the braces is not
/// checked here.
pub open spec fn is_object_text(s: Seq<char>) -> bool {
    &&& s.len() >= 2
    &&& s[0] == '{'
    &&& s[s.len() - 1] == '}'
}

/// Checks that a text opens with `{` and closes with `}`.
fn object_text(s: &str) -> (r: bool)
    ensures
        r == is_object_text(s@),
{
    let n = s.unicode_len();
    if n < 2 {
        return false;
    }
    s.get_char(0) == '{' && s.get_char(n - 1) == '}'
}

/// Parameters of a job that scores a single page, held as the text of
/// the request body, which the HTTP surface has parsed as a JSON object. The
/// type itself only keeps the text braced.
pub struct PageScoreParameters {
    json: String,
}

/// Parameters of a job that scores a whole site, held as the text of
/// the request body, which the HTTP surface has parsed as a JSON object. The
/// type itself only keeps the text braced.
pub struct SiteScoreParameters {
    json: String,
}

impl View for PageScoreParameters {
    type V = Seq<char>;

    closed spec fn view(&self) -> Seq<char> {
        self.json@
    }
}

impl View for SiteScoreParameters {
    type V = Seq<char>;

    closed spec fn view(&self) -> Seq<char> {
        self.json@
    }
}

impl PageScoreParameters {
    #[verifier::type_invariant]
    spec fn inv(&self) -> bool {
        is_object_text(self.json@)
    }

    /// Takes the JSON text of the parameters; `None` unless it opens with `{`
    /// and closes with `}`.
    pub fn from_json(json: String) -> (r: Option<PageScoreParameters>)
        ensures
            r is Some <==> is_object_text(json@),
            r matches Some(p) ==> p@ == json@,
    {
        if object_text(json.as_str()) {
            Some(PageScoreParameters { json })
        } else {
            None
        }
    }

    /// The text of the parameters.
    pub fn json(&self) -> (r: &str)
        ensures
            r@ == self@,
            is_object_text(r@),
    {
        proof {
            use_type_invariant(self);
        }
        self.json.as_str()
    }
}

impl SiteScoreParameters {
    #[verifier::type_invariant]
    spec fn inv(&self) -> bool {
        is_object_text(self.json@)
    }

    /// Takes the JSON text of the parameters; `None` unless it opens with `{`
    /// and closes with `}`.
    pub fn from_json(json: String) -> (r: Option<SiteScoreParameters>)
        ensures
            r is Some <==> is_object_text(json@),
            r matches Some(p) ==> p@ == json@,
    {
        if object_text(json.as_str()) {
            Some(SiteScoreParameters { json })
        } else {
            None
        }
    }

    /// The text of the parameters.
    pub fn json(&self) -> (r: &str)
        ensures
            r@ == self@,
            is_object_text(r@),
    {
        proof {
            use_type_invariant(self);
        }
        self.json.as_str()
    }
}

/// The envelope of one score job: a page job or a site job, never both and
/// never neither. On the wire it has a `page` slot and a `site` slot, of
/// which the one that the variant does not fill is `null`.
pub enum ScoreParameters {
    Page(PageScoreParameters),
    Site(SiteScoreParameters),
}

impl ScoreParameters {
    /// The parameters in the `page` slot, if that slot is filled.
    pub open spec fn page_slot(&self) -> Option<Seq<char>> {
        match self {
            ScoreParameters::Page(p) => Some(p@),
            ScoreParameters::Site(_) => None,
        }
    }

    /// The parameters in the `site` slot, if that slot is filled.
    pub open spec fn site_slot(&self) -> Option<Seq<char>> {
        match self {
            ScoreParameters::Page(_) => None,
            ScoreParameters::Site(s) => Some(s@),
        }
    }

    /// The text of whichever parameters the envelope carries.
    pub open spec fn payload(&self) -> Seq<char> {
        match self {
            ScoreParameters::Page(p) => p@,
            ScoreParameters::Site(s) => s@,
        }
    }

    /// Wraps the parameters of a page job.
    pub fn from_page(page: PageScoreParameters) -> (r: ScoreParameters)
        ensures
            r.page_slot() == Some(page@),
            r.site_slot() is None,
    {
        ScoreParameters::Page(page)
    }

    /// Wraps the parameters of a site job.
    pub fn from_site(site: SiteScoreParameters) -> (r: ScoreParameters)
        ensures
            r.page_slot() is None,
            r.site_slot() == Some(site@),
    {
        ScoreParameters::Site(site)
    }

    /// The parameters in the `page` slot, if any.
    pub fn page(&self) -> (r: Option<&PageScoreParameters>)
        ensures
            r matches Some(p) ==> self.page_slot() == Some(p@),
            r is None <==> self.page_slot() is None,
    {
        match self {
            ScoreParameters::Page(p) => Some(p),
            ScoreParameters::Site(_) => None,
        }
    }

    /// The parameters in the `site` slot, if any.
    pub fn site(&self) -> (r: Option<&SiteScoreParameters>)
        ensures
            r matches Some(s) ==> self.site_slot() == Some(s@),
            r is None <==> self.site_slot() is None,
    {
        match self {
            ScoreParameters::Page(_) => None,
            ScoreParameters::Site(s) => Some(s),
        }
    }
}

/// Every envelope fills exactly one of its two slots, and the filled slot
/// holds the envelope's payload.
pub proof fn lemma_exactly_one_slot(e: ScoreParameters)
    ensures
        e.page_slot() is Some <==> e.site_slot() is None,
        e.page_slot() is Some ==> e.page_slot() == Some(e.payload()),
        e.site_slot() is Some ==> e.site_slot() == Some(e.payload()),
{
}

} // verus!
