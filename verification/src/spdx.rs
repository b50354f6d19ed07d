//! License summaries and details, and the operations on a fetched license
//! list: filtering by flags, lookup by identifier, ordering for display,
//! and assembly from decoded registry fields.

use vstd::prelude::*;
use crate::errors::Error;
use crate::markers::has_year_marker;
use crate::markers::has_owner_marker;
use crate::markers::has_repo_marker;
use crate::markers::has_email_marker;
use crate::markers::text_has_year;
use crate::markers::text_has_owner;
use crate::markers::text_has_repo;
use crate::markers::text_has_email;
use crate::text::chars_of;

verus! {

/// A license summary from the registry's license list.
#[derive(Debug, Clone, PartialEq)]
pub struct License {
    /// The license identifier is deprecated.
    pub is_deprecated_license_id: bool,
    /// Where the full details of the license can be fetched.
    pub details_url: String,
    /// The unique identifier of the license.
    pub id: String,
    /// The license is approved by the OSI.
    pub is_osi_approved: bool,
    /// Whether the license is FSF Free/Libre, when the registry says.
    pub is_fsf_libre: Option<bool>,
}

/// A fetched list of license summaries.
#[derive(Debug, Clone, PartialEq)]
pub struct Licenses {
    /// The summaries, in registry order.
    pub body: Vec<License>,
}

/// A license passes the combined filter when it satisfies every enabled
/// criterion: each flag that is set restricts the result to the licenses
/// with (or, for `supported`, without) the corresponding property.
pub open spec fn passes_filter(
    l: License,
    deprecated: bool,
    supported: bool,
    osi_approved: bool,
    fsf_libre: bool,
) -> bool {
    &&& (deprecated ==> l.is_deprecated_license_id)
    &&& (supported ==> !l.is_deprecated_license_id)
    &&& (osi_approved ==> l.is_osi_approved)
    &&& (fsf_libre ==> l.is_fsf_libre == Some(true))
}

/// The combined filter as a predicate on licenses.
pub open spec fn filter_pred(
    deprecated: bool,
    supported: bool,
    osi_approved: bool,
    fsf_libre: bool,
) -> spec_fn(License) -> bool {
    |l: License| passes_filter(l, deprecated, supported, osi_approved, fsf_libre)
}

/// No license among the first `n` has the identifier `id`.
pub open spec fn no_match_before(body: Seq<License>, id: Seq<char>, n: int) -> bool {
    forall|k: int| 0 <= k < n ==> (#[trigger] body[k]).id@ != id
}

impl Licenses {
    /// Filters the licenses by the enabled criteria; the result keeps the
    /// original order and holds exactly the licenses that pass.
    pub fn filter_by(
        &self,
        deprecated: bool,
        supported: bool,
        osi_approved: bool,
        fsf_libre: bool,
    ) -> (r: Vec<&License>)
        ensures
            r@.map_values(|l: &License| *l) == self.body@.filter(
                filter_pred(deprecated, supported, osi_approved, fsf_libre),
            ),
    {
        broadcast use vstd::seq_lib::group_filter_ensures;
        broadcast use Seq::lemma_filter_push;

        let mut out: Vec<&License> = Vec::new();
        let mut i: usize = 0;
        proof {
            assert(self.body@.take(0).filter(
                filter_pred(deprecated, supported, osi_approved, fsf_libre),
            ) =~= Seq::<License>::empty());
            assert(out@.map_values(|l: &License| *l) =~= Seq::<License>::empty());
        }
        while i < self.body.len()
            invariant
                i <= self.body@.len(),
                out@.map_values(|l: &License| *l) == self.body@.take(i as int).filter(
                    filter_pred(deprecated, supported, osi_approved, fsf_libre),
                ),
            decreases self.body@.len() - i,
        {
            let l = &self.body[i];
            let fsf_ok = match l.is_fsf_libre {
                Some(b) => b,
                None => false,
            };
            let keep = (!deprecated || l.is_deprecated_license_id) && (!supported
                || !l.is_deprecated_license_id) && (!osi_approved || l.is_osi_approved) && (
            !fsf_libre || fsf_ok);
            proof {
                assert(keep == passes_filter(
                    self.body@[i as int],
                    deprecated,
                    supported,
                    osi_approved,
                    fsf_libre,
                ));
                assert(self.body@.take(i + 1) =~= self.body@.take(i as int).push(
                    self.body@[i as int],
                ));
                self.body@.take(i as int).lemma_filter_push(
                    self.body@[i as int],
                    filter_pred(deprecated, supported, osi_approved, fsf_libre),
                );
            }
            if keep {
                let ghost prev = out@;
                out.push(l);
                proof {
                    assert(out@.map_values(|l: &License| *l) =~= prev.map_values(
                        |l: &License| *l,
                    ).push(self.body@[i as int]));
                }
            }
            i += 1;
        }
        proof {
            assert(self.body@.take(self.body@.len() as int) =~= self.body@);
        }
        out
    }

    /// Looks up the first license with the given identifier; when none
    /// matches, the lookup fails with `NotFound`.
    pub fn find_by_id(&self, id: &String) -> (r: Result<&License, Error>)
        ensures
            match r {
                Ok(l) => exists|i: int|
                    0 <= i < self.body@.len() && *l == (#[trigger] self.body@[i])
                        && self.body@[i].id@ == id@ && no_match_before(self.body@, id@, i),
                Err(e) => e == Error::NotFound && no_match_before(
                    self.body@,
                    id@,
                    self.body@.len() as int,
                ),
            },
    {
        let mut i: usize = 0;
        while i < self.body.len()
            invariant
                i <= self.body@.len(),
                no_match_before(self.body@, id@, i as int),
            decreases self.body@.len() - i,
        {
            if self.body[i].id == *id {
                return Ok(&self.body[i]);
            }
            i += 1;
        }
        Err(Error::NotFound)
    }
}

impl License {
    /// Assembles a summary from decoded registry fields; a missing required
    /// field makes the response malformed.
    pub fn from_fields(
        is_deprecated_license_id: Option<bool>,
        details_url: Option<String>,
        id: Option<String>,
        is_osi_approved: Option<bool>,
        is_fsf_libre: Option<bool>,
    ) -> (r: Result<License, Error>)
        ensures
            match r {
                Ok(l) => {
                    &&& is_deprecated_license_id == Some(l.is_deprecated_license_id)
                    &&& details_url == Some(l.details_url)
                    &&& id == Some(l.id)
                    &&& is_osi_approved == Some(l.is_osi_approved)
                    &&& is_fsf_libre == l.is_fsf_libre
                },
                Err(e) => {
                    &&& e == Error::Malformed
                    &&& (is_deprecated_license_id is None || details_url is None || id is None
                        || is_osi_approved is None)
                },
            },
    {
        match (is_deprecated_license_id, details_url, id, is_osi_approved) {
            (Some(dep), Some(url), Some(lid), Some(osi)) => Ok(
                License {
                    is_deprecated_license_id: dep,
                    details_url: url,
                    id: lid,
                    is_osi_approved: osi,
                    is_fsf_libre,
                },
            ),
            _ => Err(Error::Malformed),
        }
    }
}

/// The full details of one license.
#[derive(Debug, Clone, PartialEq)]
pub struct LicenseDetails {
    /// The license identifier is deprecated.
    pub is_deprecated_license_id: bool,
    /// The full text of the license.
    pub license_text: String,
    /// The name of the license.
    pub name: String,
    /// Comments about the license, when the registry gives any.
    pub license_comments: Option<String>,
    /// The unique identifier of the license.
    pub license_id: String,
    /// Addresses with further information, in registry order.
    pub see_also: Vec<String>,
    /// The license is approved by the OSI.
    pub is_osi_approved: bool,
    /// Whether the license is FSF Free/Libre, when the registry says.
    pub is_fsf_libre: Option<bool>,
    /// The version in which the license was deprecated, if any.
    pub deprecated_version: Option<String>,
}

impl LicenseDetails {
    /// Does the license text contain a year placeholder?
    pub fn has_year(&self) -> (b: bool)
        ensures
            b == has_year_marker(self.license_text@),
    {
        let t = chars_of(self.license_text.as_str());
        text_has_year(&t)
    }

    /// Does the license text contain an owner placeholder?
    pub fn has_owner(&self) -> (b: bool)
        ensures
            b == has_owner_marker(self.license_text@),
    {
        let t = chars_of(self.license_text.as_str());
        text_has_owner(&t)
    }

    /// Does the license text contain a repository-name placeholder?
    pub fn has_repo(&self) -> (b: bool)
        ensures
            b == has_repo_marker(self.license_text@),
    {
        let t = chars_of(self.license_text.as_str());
        text_has_repo(&t)
    }

    /// Does the license text contain an email placeholder?
    pub fn has_email(&self) -> (b: bool)
        ensures
            b == has_email_marker(self.license_text@),
    {
        let t = chars_of(self.license_text.as_str());
        text_has_email(&t)
    }

    /// Assembles the details from decoded registry fields; a missing
    /// required field makes the response malformed.
    pub fn from_fields(
        is_deprecated_license_id: Option<bool>,
        license_text: Option<String>,
        name: Option<String>,
        license_comments: Option<String>,
        license_id: Option<String>,
        see_also: Option<Vec<String>>,
        is_osi_approved: Option<bool>,
        is_fsf_libre: Option<bool>,
        deprecated_version: Option<String>,
    ) -> (r: Result<LicenseDetails, Error>)
        ensures
            match r {
                Ok(d) => {
                    &&& is_deprecated_license_id == Some(d.is_deprecated_license_id)
                    &&& license_text == Some(d.license_text)
                    &&& name == Some(d.name)
                    &&& license_comments == d.license_comments
                    &&& license_id == Some(d.license_id)
                    &&& see_also == Some(d.see_also)
                    &&& is_osi_approved == Some(d.is_osi_approved)
                    &&& is_fsf_libre == d.is_fsf_libre
                    &&& deprecated_version == d.deprecated_version
                },
                Err(e) => {
                    &&& e == Error::Malformed
                    &&& (is_deprecated_license_id is None || license_text is None || name is None
                        || license_id is None || see_also is None || is_osi_approved is None)
                },
            },
    {
        match (is_deprecated_license_id, license_text, name, license_id, see_also,
            is_osi_approved) {
            (Some(dep), Some(text), Some(nm), Some(lid), Some(also), Some(osi)) => Ok(
                LicenseDetails {
                    is_deprecated_license_id: dep,
                    license_text: text,
                    name: nm,
                    license_comments,
                    license_id: lid,
                    see_also: also,
                    is_osi_approved: osi,
                    is_fsf_libre,
                    deprecated_version,
                },
            ),
            _ => Err(Error::Malformed),
        }
    }
}

/// The licenses that are still supported: their identifier is not
/// deprecated.
pub open spec fn supported_pred<'a>() -> spec_fn(&'a License) -> bool {
    |x: &License| !x.is_deprecated_license_id
}

/// The licenses whose identifier is deprecated.
pub open spec fn deprecated_pred<'a>() -> spec_fn(&'a License) -> bool {
    |x: &License| x.is_deprecated_license_id
}

/// Orders licenses for display: the supported licenses first, then the
/// deprecated ones, each group keeping its original order.
pub fn order_for_display<'a>(v: &Vec<&'a License>) -> (r: Vec<&'a License>)
    ensures
        r@ == v@.filter(supported_pred()) + v@.filter(deprecated_pred()),
{
    let mut out: Vec<&License> = Vec::new();
    proof {
        assert(v@.take(0).filter(supported_pred()) =~= Seq::<&License>::empty());
    }
    let mut i: usize = 0;
    while i < v.len()
        invariant
            i <= v@.len(),
            out@ == v@.take(i as int).filter(supported_pred()),
        decreases v@.len() - i,
    {
        proof {
            assert(v@.take(i + 1) =~= v@.take(i as int).push(v@[i as int]));
            v@.take(i as int).lemma_filter_push(v@[i as int], supported_pred());
        }
        if !v[i].is_deprecated_license_id {
            out.push(v[i]);
        }
        i += 1;
    }
    proof {
        assert(v@.take(v@.len() as int) =~= v@);
        assert(v@.take(0).filter(deprecated_pred()) =~= Seq::<&License>::empty());
        assert(out@ + Seq::<&License>::empty() =~= out@);
    }
    let ghost kept = out@;
    let mut i: usize = 0;
    while i < v.len()
        invariant
            i <= v@.len(),
            kept == v@.filter(supported_pred()),
            out@ == kept + v@.take(i as int).filter(deprecated_pred()),
        decreases v@.len() - i,
    {
        proof {
            assert(v@.take(i + 1) =~= v@.take(i as int).push(v@[i as int]));
            v@.take(i as int).lemma_filter_push(v@[i as int], deprecated_pred());
            assert((kept + v@.take(i as int).filter(deprecated_pred())).push(v@[i as int]) =~= kept
                + v@.take(i as int).filter(deprecated_pred()).push(v@[i as int]));
        }
        if v[i].is_deprecated_license_id {
            out.push(v[i]);
        }
        i += 1;
    }
    proof {
        assert(v@.take(v@.len() as int) =~= v@);
    }
    out
}

/// Filtering is a conjunction: a license passes the combined filter exactly
/// when it passes each enabled criterion on its own.
pub proof fn lemma_filter_conjunction(
    l: License,
    deprecated: bool,
    supported: bool,
    osi_approved: bool,
    fsf_libre: bool,
)
    ensures
        passes_filter(l, deprecated, supported, osi_approved, fsf_libre) == (passes_filter(
            l,
            deprecated,
            false,
            false,
            false,
        ) && passes_filter(l, false, supported, false, false) && passes_filter(
            l,
            false,
            false,
            osi_approved,
            false,
        ) && passes_filter(l, false, false, false, fsf_libre)),
{
}

/// The OSI filter selects exactly the licenses whose OSI flag is set: every
/// selected license has the flag, and every license with the flag is
/// selected.
pub proof fn lemma_osi_filter_exact(ls: Licenses)
    ensures
        forall|i: int|
            0 <= i < ls.body@.filter(filter_pred(false, false, true, false)).len() ==> (
            #[trigger] ls.body@.filter(filter_pred(false, false, true, false))[i]).is_osi_approved,
        forall|i: int|
            0 <= i < ls.body@.len() && (#[trigger] ls.body@[i]).is_osi_approved ==> ls.body@.filter(
                filter_pred(false, false, true, false),
            ).contains(ls.body@[i]),
{
    broadcast use vstd::seq_lib::group_filter_ensures;
        broadcast use Seq::lemma_filter_push;

    let sel = ls.body@.filter(filter_pred(false, false, true, false));
    assert forall|i: int| 0 <= i < sel.len() implies (#[trigger] sel[i]).is_osi_approved by {
        assert(filter_pred(false, false, true, false)(sel[i]));
    }
    assert forall|i: int|
        0 <= i < ls.body@.len() && (#[trigger] ls.body@[i]).is_osi_approved implies sel.contains(
        ls.body@[i],
    ) by {
        assert(filter_pred(false, false, true, false)(ls.body@[i]));
    }
}

} // verus!
