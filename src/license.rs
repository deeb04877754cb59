use vstd::prelude::*;

verus! {

/// The licenses that the library recognises.
#[derive(Debug, Copy, Clone, PartialEq, Eq, Structural)]
pub enum LicenseId {
    Bsd3Clause,
    Mit,
    Mpl2,
}

/// A candidate license file name, in three parts: base name, suffix, extension.
pub type NameParts = (Seq<char>, Seq<char>, Seq<char>);

/// The SPDX code of a license.
pub open spec fn spdx_of(id: LicenseId) -> Seq<char> {
    match id {
        LicenseId::Mit => "MIT"@,
        LicenseId::Bsd3Clause => "BSD-3-Clause"@,
        LicenseId::Mpl2 => "MPL-2.0"@,
    }
}

/// The file-name suffixes that are conventional for a license, in order.
pub open spec fn suffixes_of(id: LicenseId) -> Seq<Seq<char>> {
    match id {
        LicenseId::Mit => seq!["-MIT"@],
        LicenseId::Bsd3Clause => seq![],
        LicenseId::Mpl2 => seq![],
    }
}

/// The base names under which a license file is looked for, in order.
pub open spec fn base_names() -> Seq<Seq<char>> {
    seq!["LICENSE"@, "COPYING"@, "LICENCE"@]
}

/// The extensions tried for each base name and suffix, in order.
pub open spec fn extensions() -> Seq<Seq<char>> {
    seq![""@, ".txt"@]
}

/// The suffixes of a license followed by the empty suffix.
pub open spec fn middles_of(id: LicenseId) -> Seq<Seq<char>> {
    suffixes_of(id).push(""@)
}

/// One base name and one suffix, with every extension.
pub open spec fn with_extensions(b: Seq<char>, s: Seq<char>) -> Seq<NameParts> {
    seq![(b, s, extensions()[0]), (b, s, extensions()[1])]
}

/// One base name with each suffix of `mids`, suffix outer and extension inner.
pub open spec fn for_base(b: Seq<char>, mids: Seq<Seq<char>>) -> Seq<NameParts>
    decreases mids.len(),
{
    if mids.len() == 0 {
        seq![]
    } else {
        for_base(b, mids.drop_last()) + with_extensions(b, mids.last())
    }
}

/// The Cartesian product of base names, suffixes and extensions, base names
/// outermost and extensions innermost.
pub open spec fn product(bases: Seq<Seq<char>>, mids: Seq<Seq<char>>) -> Seq<NameParts>
    decreases bases.len(),
{
    if bases.len() == 0 {
        seq![]
    } else {
        product(bases.drop_last(), mids) + for_base(bases.last(), mids)
    }
}

/// The candidate file names of a license, in the order in which they are tried.
pub open spec fn candidates_of(id: LicenseId) -> Seq<NameParts> {
    product(base_names(), middles_of(id))
}

/// The three parts of a candidate as character sequences.
pub open spec fn parts_view(t: (&'static str, &'static str, &'static str)) -> NameParts {
    (t.0@, t.1@, t.2@)
}

/// Each string of a sequence as its characters.
pub open spec fn strs_view(v: Seq<&'static str>) -> Seq<Seq<char>> {
    v.map_values(|s: &'static str| s@)
}

proof fn lemma_for_base_len(b: Seq<char>, mids: Seq<Seq<char>>)
    ensures
        for_base(b, mids).len() == 2 * mids.len(),
    decreases mids.len(),
{
    if mids.len() > 0 {
        lemma_for_base_len(b, mids.drop_last());
    }
}

proof fn lemma_product_len(bases: Seq<Seq<char>>, mids: Seq<Seq<char>>)
    ensures
        product(bases, mids).len() == bases.len() * (2 * mids.len()),
    decreases bases.len(),
{
    if bases.len() > 0 {
        lemma_product_len(bases.drop_last(), mids);
        lemma_for_base_len(bases.last(), mids);
        assert(bases.len() * (2 * mids.len()) == (bases.len() - 1) * (2 * mids.len()) + 2
            * mids.len()) by (nonlinear_arith);
    }
}

proof fn lemma_for_base_first(b: Seq<char>, mids: Seq<Seq<char>>)
    requires
        mids.len() > 0,
    ensures
        for_base(b, mids)[0] == (b, mids[0], extensions()[0]),
    decreases mids.len(),
{
    let d = mids.drop_last();
    lemma_for_base_len(b, d);
    if mids.len() > 1 {
        lemma_for_base_first(b, d);
        assert(d[0] == mids[0]);
    } else {
        assert(for_base(b, d) =~= seq![]);
    }
}

proof fn lemma_product_first(bases: Seq<Seq<char>>, mids: Seq<Seq<char>>)
    requires
        bases.len() > 0,
        mids.len() > 0,
    ensures
        product(bases, mids)[0] == (bases[0], mids[0], extensions()[0]),
    decreases bases.len(),
{
    lemma_for_base_len(bases.last(), mids);
    if bases.len() > 1 {
        lemma_product_len(bases.drop_last(), mids);
        assert((bases.len() - 1) * (2 * mids.len()) > 0) by (nonlinear_arith)
            requires
                bases.len() > 1,
                mids.len() > 0,
        ;
        lemma_product_first(bases.drop_last(), mids);
        assert(bases.drop_last()[0] == bases[0]);
    } else {
        lemma_for_base_first(bases.last(), mids);
        assert(product(bases.drop_last(), mids) =~= seq![]);
    }
}

/// The candidate file names of every license form a finite, non-empty
/// sequence: six names for each suffix and the empty one, the first being the
/// base name `LICENSE` with the license's first suffix (or none) and no
/// extension.
pub proof fn lemma_candidates_shape(id: LicenseId)
    ensures
        candidates_of(id).len() == 6 * middles_of(id).len(),
        candidates_of(id).len() > 0,
        candidates_of(id)[0] == ("LICENSE"@, middles_of(id)[0], ""@),
        suffixes_of(id).len() > 0 ==> candidates_of(id)[0].1 == suffixes_of(id)[0],
        suffixes_of(id).len() == 0 ==> candidates_of(id)[0].1 == ""@,
{
    assert(base_names().len() == 3);
    lemma_product_len(base_names(), middles_of(id));
    lemma_product_first(base_names(), middles_of(id));
}

fn exec_base_names() -> (r: Vec<&'static str>)
    ensures
        strs_view(r@) == base_names(),
{
    let mut r: Vec<&'static str> = Vec::new();
    r.push("LICENSE");
    r.push("COPYING");
    r.push("LICENCE");
    assert(strs_view(r@) =~= base_names());
    r
}

fn exec_extensions() -> (r: Vec<&'static str>)
    ensures
        strs_view(r@) == extensions(),
{
    let mut r: Vec<&'static str> = Vec::new();
    r.push("");
    r.push(".txt");
    assert(strs_view(r@) =~= extensions());
    r
}

impl LicenseId {
    /// The file-name suffixes conventional for this license, in order.
    pub fn suffixes(&self) -> (r: Vec<&'static str>)
        ensures
            strs_view(r@) == suffixes_of(*self),
    {
        let mut r: Vec<&'static str> = Vec::new();
        match self {
            LicenseId::Mit => {
                r.push("-MIT");
            },
            LicenseId::Bsd3Clause => {},
            LicenseId::Mpl2 => {},
        }
        assert(strs_view(r@) =~= suffixes_of(*self));
        r
    }

    /// The candidate license file names as (base name, suffix, extension):
    /// base names outermost, then the suffixes followed by the empty one,
    /// then the extensions.
    pub fn guess_filenames(&self) -> (r: Vec<(&'static str, &'static str, &'static str)>)
        ensures
            r@.map_values(|t: (&'static str, &'static str, &'static str)| parts_view(t))
                == candidates_of(*self),
    {
        let bases = exec_base_names();
        let exts = exec_extensions();
        let mut mids = self.suffixes();
        mids.push("");
        assert(strs_view(mids@) =~= middles_of(*self));
        assert(exts@.len() == strs_view(exts@).len());
        let ghost bs = base_names();
        let ghost ms = middles_of(*self);
        let mut r: Vec<(&'static str, &'static str, &'static str)> = Vec::new();
        let mut i: usize = 0;
        while i < bases.len()
            invariant
                strs_view(bases@) == bs,
                strs_view(exts@) == extensions(),
                exts@.len() == 2,
                strs_view(mids@) == ms,
                ms == middles_of(*self),
                bs == base_names(),
                0 <= i <= bases.len(),
                r@.map_values(|t: (&'static str, &'static str, &'static str)| parts_view(t))
                    == product(bs.take(i as int), ms),
            decreases bases.len() - i,
        {
            let ghost before = r@.map_values(
                |t: (&'static str, &'static str, &'static str)| parts_view(t),
            );
            let mut j: usize = 0;
            while j < mids.len()
                invariant
                    strs_view(bases@) == bs,
                    strs_view(exts@) == extensions(),
                    exts@.len() == 2,
                    strs_view(mids@) == ms,
                    bs.len() == bases@.len(),
                    ms.len() == mids@.len(),
                    0 <= i < bases.len(),
                    0 <= j <= mids.len(),
                    r@.map_values(|t: (&'static str, &'static str, &'static str)| parts_view(t))
                        == before + for_base(bs[i as int], ms.take(j as int)),
                decreases mids.len() - j,
            {
                let b = bases[i];
                let m = mids[j];
                assert(b@ == bs[i as int]);
                assert(m@ == ms[j as int]);
                let ghost prev = r@;
                r.push((b, m, exts[0]));
                r.push((b, m, exts[1]));
                proof {
                    let t = ms.take(j as int + 1);
                    assert(t.drop_last() =~= ms.take(j as int));
                    assert(t.last() == ms[j as int]);
                    assert(exts@[0]@ == strs_view(exts@)[0]);
                    assert(exts@[1]@ == strs_view(exts@)[1]);
                    let f = |t: (&'static str, &'static str, &'static str)| parts_view(t);
                    assert(r@ == prev.push((b, m, exts@[0])).push((b, m, exts@[1])));
                    assert(r@.map_values(f) =~= prev.map_values(f) + with_extensions(
                        bs[i as int],
                        ms[j as int],
                    ));
                    assert(for_base(bs[i as int], t) == for_base(bs[i as int], ms.take(j as int))
                        + with_extensions(bs[i as int], ms[j as int]));
                    assert(r@.map_values(f) =~= before + for_base(bs[i as int], t));
                }
                j = j + 1;
            }
            proof {
                assert(ms.take(mids.len() as int) =~= ms);
                let t = bs.take(i as int + 1);
                assert(t.drop_last() =~= bs.take(i as int));
                assert(t.last() == bs[i as int]);
            }
            i = i + 1;
        }
        assert(bs.take(bases.len() as int) =~= bs);
        r
    }

    /// The SPDX code of this license.
    pub fn spdx_id(&self) -> (r: &'static str)
        ensures
            r@ == spdx_of(*self),
    {
        match self {
            LicenseId::Mit => "MIT",
            LicenseId::Bsd3Clause => "BSD-3-Clause",
            LicenseId::Mpl2 => "MPL-2.0",
        }
    }
}

/// Where a license document was found.
#[derive(Debug, Clone, PartialEq, Eq)]
pub enum LicenseSource {
    /// A file of the package's own source tree, by file name.
    Crate(String),
    /// The hosting service's license endpoint, by download URL.
    GitHubApi { url: String },
    /// A raw file of the hosted repository, by URL.
    GitHubRepo { url: String },
}

} // verus!
