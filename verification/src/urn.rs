//! The URN value, its builder, and the canonical serialization.

use crate::addr::address_text;
use crate::addr::format_address;
use crate::dec::spec_dec;
use crate::dec::u64_to_dec;
use algonaut_core::Address;
use vstd::prelude::*;
use vstd::string::StringExecFns;

verus! {

/// One `key=value` entry of the URN's query section.
pub enum Param {
    Amount(u64),
    Label(String),
    Asset(u64),
    XNote(String),
    Note(String),
    Other(String, String),
}

/// The fixed scheme prefix that every serialized URN starts with.
pub open spec fn scheme_prefix() -> Seq<char> {
    "algorand://"@
}

/// The `key=value` text of one parameter. Values are emitted verbatim:
/// nothing is escaped.
pub open spec fn param_ser(p: Param) -> Seq<char> {
    match p {
        Param::Amount(amt) => "amount="@ + spec_dec(amt as nat),
        Param::Label(label) => "label="@ + label@,
        Param::Asset(id) => "asset="@ + spec_dec(id as nat),
        Param::XNote(text) => "xnote="@ + text@,
        Param::Note(text) => "note="@ + text@,
        Param::Other(key, value) => key@ + "="@ + value@,
    }
}

/// The parameters in insertion order, `&`-separated, with no trailing `&`.
pub open spec fn join_params(ps: Seq<Param>) -> Seq<char>
    decreases ps.len(),
{
    if ps.len() == 0 {
        Seq::empty()
    } else if ps.len() == 1 {
        param_ser(ps[0])
    } else {
        param_ser(ps[0]) + seq!['&'] + join_params(ps.drop_first())
    }
}

/// The whole serialized URN: scheme, then the address text if one is set,
/// then `?` and the joined parameters if any were added.
pub open spec fn spec_serialize(address: Option<Address>, ps: Seq<Param>) -> Seq<char> {
    scheme_prefix() + (match address {
        Some(a) => address_text(a),
        None => Seq::<char>::empty(),
    }) + (if ps.len() == 0 {
        Seq::<char>::empty()
    } else {
        seq!['?'] + join_params(ps)
    })
}

/// Appending a parameter appends `&key=value` to a non-empty query section,
/// and starts the section with `key=value` when it was empty: the joined text
/// lists the parameters exactly in insertion order.
pub proof fn lemma_join_params_push(ps: Seq<Param>, p: Param)
    ensures
        ps.len() == 0 ==> join_params(ps.push(p)) == param_ser(p),
        ps.len() > 0 ==> join_params(ps.push(p)) == join_params(ps) + seq!['&'] + param_ser(p),
    decreases ps.len(),
{
    if ps.len() == 0 {
        assert(ps.push(p)[0] == p);
    } else if ps.len() == 1 {
        assert(ps.push(p).drop_first() =~= seq![p]);
        assert(ps.push(p)[0] == ps[0]);
        assert(join_params(seq![p]) == param_ser(p));
        assert(join_params(ps.push(p)) == param_ser(ps[0]) + seq!['&'] + join_params(seq![p]));
    } else {
        assert(ps.push(p).drop_first() =~= ps.drop_first().push(p));
        lemma_join_params_push(ps.drop_first(), p);
        assert(ps.push(p)[0] == ps[0]);
        assert(join_params(ps.push(p)) =~= join_params(ps) + seq!['&'] + param_ser(p));
    }
}

/// A URN holding an address and nothing else serializes to the scheme prefix
/// followed by the address's canonical text: no query section is emitted.
pub proof fn lemma_serialize_address_only(u: &AlgorandUrn, a: Address)
    requires
        u.spec_address() == Some(a),
        u.spec_params() == Seq::<Param>::empty(),
    ensures
        spec_serialize(u.spec_address(), u.spec_params()) == scheme_prefix() + address_text(a),
{
    assert(spec_serialize(u.spec_address(), u.spec_params()) =~= scheme_prefix() + address_text(
        a,
    ));
}

/// A URN with no address and no parameters serializes to exactly the scheme
/// prefix `algorand://`: a degenerate but valid output.
pub proof fn lemma_serialize_empty()
    ensures
        spec_serialize(Option::<Address>::None, Seq::<Param>::empty()) == "algorand://"@,
{
    assert(spec_serialize(Option::<Address>::None, Seq::<Param>::empty()) =~= "algorand://"@);
}

/// Serialization is a pure function of a URN's fields: two URNs with equal
/// fields serialize to the same text, so repeated [`AlgorandUrn::to_string`]
/// calls on one URN return identical strings.
pub proof fn lemma_serialize_deterministic(u1: &AlgorandUrn, u2: &AlgorandUrn)
    requires
        u1.spec_address() == u2.spec_address(),
        u1.spec_params() == u2.spec_params(),
    ensures
        spec_serialize(u1.spec_address(), u1.spec_params()) == spec_serialize(
            u2.spec_address(),
            u2.spec_params(),
        ),
{
}

/// Appending an amount then a label and appending the same label then the
/// same amount give different query sections: insertion order is kept, never
/// canonicalized.
pub proof fn lemma_order_sensitive(amt: u64, label: String)
    ensures
        join_params(seq![Param::Amount(amt), Param::Label(label)]) != join_params(
            seq![Param::Label(label), Param::Amount(amt)],
        ),
{
    reveal_strlit("amount=");
    reveal_strlit("label=");
    let s1 = join_params(seq![Param::Amount(amt), Param::Label(label)]);
    let s2 = join_params(seq![Param::Label(label), Param::Amount(amt)]);
    assert(s1[0] == 'a');
    assert(s2[0] == 'l');
}

impl Param {
    /// Renders this parameter as `key=value`.
    pub fn to_string(&self) -> (r: String)
        ensures
            r@ == param_ser(*self),
    {
        match self {
            Param::Amount(amt) => {
                let mut s = String::from_str("amount=");
                let d = u64_to_dec(*amt);
                s.append(d.as_str());
                s
            },
            Param::Label(label) => {
                let mut s = String::from_str("label=");
                s.append(label.as_str());
                s
            },
            Param::Asset(id) => {
                let mut s = String::from_str("asset=");
                let d = u64_to_dec(*id);
                s.append(d.as_str());
                s
            },
            Param::XNote(text) => {
                let mut s = String::from_str("xnote=");
                s.append(text.as_str());
                s
            },
            Param::Note(text) => {
                let mut s = String::from_str("note=");
                s.append(text.as_str());
                s
            },
            Param::Other(key, value) => {
                let mut s = key.clone();
                s.append("=");
                s.append(value.as_str());
                s
            },
        }
    }
}

/// A finalized payment URN: an optional address and an ordered parameter
/// list. Immutable once built; serialization reads it and nothing else.
pub struct AlgorandUrn {
    address: Option<Address>,
    params: Vec<Param>,
}

/// Accumulates the fields of an [`AlgorandUrn`]; each setter consumes the
/// builder and returns it, so calls chain and call order fixes parameter
/// order. No setter validates or reorders anything: repeated keys are kept,
/// only a repeated address overwrites.
pub struct AlgorandUrnBuilder {
    address: Option<Address>,
    params: Vec<Param>,
}

impl AlgorandUrn {
    /// The address this URN was built with, if any.
    pub closed spec fn spec_address(&self) -> Option<Address> {
        self.address
    }

    /// The parameters this URN was built with, in insertion order.
    pub closed spec fn spec_params(&self) -> Seq<Param> {
        self.params@
    }

    /// Serializes the URN to its canonical text. The result depends on the
    /// fields alone, so repeated calls return identical strings.
    pub fn to_string(&self) -> (r: String)
        ensures
            r@ == spec_serialize(self.spec_address(), self.spec_params()),
    {
        let mut s = String::from_str("algorand://");
        match &self.address {
            Some(addr) => {
                let t = format_address(addr);
                s.append(t.as_str());
            },
            None => {},
        }
        let ghost head: Seq<char> = s@;
        if self.params.len() > 0 {
            s.append("?");
            let first = self.params[0].to_string();
            s.append(first.as_str());
            proof {
                reveal_strlit("?");
                assert("?"@ =~= seq!['?']);
                assert(self.params@.take(1) =~= seq![self.params@[0]]);
                assert(s@ == head + seq!['?'] + join_params(self.params@.take(1)));
            }
            let mut i: usize = 1;
            while i < self.params.len()
                invariant
                    1 <= i <= self.params@.len(),
                    s@ == head + seq!['?'] + join_params(self.params@.take(i as int)),
                decreases self.params@.len() - i,
            {
                s.append("&");
                let pi = self.params[i].to_string();
                s.append(pi.as_str());
                proof {
                    reveal_strlit("&");
                    assert("&"@ =~= seq!['&']);
                    lemma_join_params_push(self.params@.take(i as int), self.params@[i as int]);
                    assert(self.params@.take(i as int).push(self.params@[i as int]) =~= self.params@.take(
                        i as int + 1,
                    ));
                }
                i = i + 1;
            }
            proof {
                assert(self.params@.take(self.params@.len() as int) =~= self.params@);
                assert(s@ =~= spec_serialize(self.spec_address(), self.spec_params()));
            }
        } else {
            proof {
                assert(s@ =~= spec_serialize(self.spec_address(), self.spec_params()));
            }
        }
        s
    }

    /// A fresh builder with no address and no parameters.
    pub fn builder() -> (r: AlgorandUrnBuilder)
        ensures
            r.spec_address() is None,
            r.spec_params() == Seq::<Param>::empty(),
    {
        AlgorandUrnBuilder::default()
    }
}

impl Default for AlgorandUrnBuilder {
    fn default() -> (r: Self)
        ensures
            r.spec_address() is None,
            r.spec_params() == Seq::<Param>::empty(),
    {
        AlgorandUrnBuilder { address: None, params: Vec::new() }
    }
}

impl AlgorandUrnBuilder {
    /// The address set so far, if any.
    pub closed spec fn spec_address(&self) -> Option<Address> {
        self.address
    }

    /// The parameters appended so far, in call order.
    pub closed spec fn spec_params(&self) -> Seq<Param> {
        self.params@
    }

    /// Sets the address; a second call overwrites the first.
    pub fn address(self, addr: Address) -> (r: Self)
        ensures
            r.spec_address() == Some(addr),
            r.spec_params() == self.spec_params(),
    {
        let mut b = self;
        b.address = Some(addr);
        b
    }

    /// Appends an `amount` parameter.
    pub fn amount(self, amt: u64) -> (r: Self)
        ensures
            r.spec_address() == self.spec_address(),
            r.spec_params() == self.spec_params().push(Param::Amount(amt)),
    {
        let mut b = self;
        b.params.push(Param::Amount(amt));
        b
    }

    /// Appends a `label` parameter.
    pub fn label(self, label: String) -> (r: Self)
        ensures
            r.spec_address() == self.spec_address(),
            r.spec_params() == self.spec_params().push(Param::Label(label)),
    {
        let mut b = self;
        b.params.push(Param::Label(label));
        b
    }

    /// Appends an `asset` parameter.
    pub fn asset(self, asa_id: u64) -> (r: Self)
        ensures
            r.spec_address() == self.spec_address(),
            r.spec_params() == self.spec_params().push(Param::Asset(asa_id)),
    {
        let mut b = self;
        b.params.push(Param::Asset(asa_id));
        b
    }

    /// Appends an `xnote` parameter.
    pub fn xnote(self, xnote: String) -> (r: Self)
        ensures
            r.spec_address() == self.spec_address(),
            r.spec_params() == self.spec_params().push(Param::XNote(xnote)),
    {
        let mut b = self;
        b.params.push(Param::XNote(xnote));
        b
    }

    /// Appends a `note` parameter.
    pub fn note(self, note: String) -> (r: Self)
        ensures
            r.spec_address() == self.spec_address(),
            r.spec_params() == self.spec_params().push(Param::Note(note)),
    {
        let mut b = self;
        b.params.push(Param::Note(note));
        b
    }

    /// Appends an arbitrary `key=value` parameter. The key is not checked
    /// against the reserved names.
    pub fn other(self, key: String, value: String) -> (r: Self)
        ensures
            r.spec_address() == self.spec_address(),
            r.spec_params() == self.spec_params().push(Param::Other(key, value)),
    {
        let mut b = self;
        b.params.push(Param::Other(key, value));
        b
    }

    /// Consumes the builder into an immutable URN. Never fails: no field is
    /// required.
    pub fn build(self) -> (r: AlgorandUrn)
        ensures
            r.spec_address() == self.spec_address(),
            r.spec_params() == self.spec_params(),
    {
        AlgorandUrn { address: self.address, params: self.params }
    }
}

} // verus!

