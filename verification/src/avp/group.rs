//! The Grouped AVP value: an ordered list of fully-formed AVPs, each
//! framed with its own header and padding.

use vstd::prelude::*;

use vstd::string::StringExecFns;

use crate::avp::{
    avp_header_len, avp_ok, avp_times_ok, avp_v_enc, avp_v_framed, avp_v_wf, avps_framed_len,
    avps_ok, avps_times_ok, avps_v_enc, avps_view, dec_avps, decode_avp_list, flag_bit_m,
    flag_bit_p, lemma_avps_framed_snoc, lemma_avps_framed_split, lemma_avps_framed_len_nonneg,
    lemma_avp_v_framed_nonneg, lemma_avps_times_ok_all, lemma_avps_times_ok_index,
    lemma_avps_v_enc_snoc, lemma_avps_v_wf_index, lemma_value_v_len_nonneg, value_ok,
    value_times_ok, value_v_len, value_v_wf, Avp, AvpFlags, AvpHeader, AvpV, AvpValue, AvpValueV,
};
use crate::bytes::Cursor;
use crate::dictionary::Dictionary;
use crate::error::Error;

verus! {

/// A grouped AVP value.
#[derive(Debug)]
pub struct Grouped {
    pub(crate) avps: Vec<Avp>,
}

impl View for Grouped {
    type V = Seq<AvpV>;

    open spec fn view(&self) -> Seq<AvpV>
        decreases self,
    {
        avps_view(self.spec_avps())
    }
}

impl Grouped {
    /// The member AVPs as executable values.
    pub closed spec fn spec_avps(&self) -> Seq<Avp> {
        self.avps@
    }

    pub fn new(avps: Vec<Avp>) -> (r: Grouped)
        ensures
            r.spec_avps() == avps@,
            r@ == avps_view(avps@),
    {
        Grouped { avps }
    }

    pub fn avps(&self) -> (r: &[Avp])
        ensures
            r@ == self.spec_avps(),
    {
        self.avps.as_slice()
    }

    /// Appends a member AVP.
    pub fn add(&mut self, avp: Avp)
        ensures
            final(self).spec_avps() == old(self).spec_avps().push(avp),
            final(self)@ == old(self)@.push(avp@),
    {
        self.avps.push(avp);
        proof {
            assert(final(self)@ =~= old(self)@.push(avp@));
        }
    }

    /// Builds a member AVP from its parts and appends it.
    pub fn add_avp(&mut self, code: u32, vendor_id: Option<u32>, flags: u8, value: AvpValue)
        requires
            value_v_wf(value@),
            value_ok(value),
            (if vendor_id is Some {
                12int
            } else {
                8int
            }) + value_v_len(value@) <= 0xFFFFFF,
        ensures
            final(self)@ == old(self)@.push(
                (AvpV {
                    header: AvpHeader {
                        code,
                        flags: AvpFlags {
                            vendor: vendor_id is Some,
                            mandatory: flag_bit_m(flags),
                            private: flag_bit_p(flags),
                        },
                        length: ((if vendor_id is Some {
                            12int
                        } else {
                            8int
                        }) + value_v_len(value@)) as u32,
                        vendor_id,
                    },
                    value: value@,
                }),
            ),
    {
        let avp = Avp::new(code, vendor_id, flags, value);
        self.add(avp);
    }

    /// Reads the members from a value window of exactly `len` bytes.
    pub fn decode_from(cursor: &mut Cursor, len: usize, dict: &Dictionary) -> (r: Result<
        Grouped,
        Error,
    >)
        requires
            old(cursor).wf(),
            len <= 0xFFFFFF,
        ensures
            final(cursor).contents() == old(cursor).contents(),
            final(cursor).wf(),
            ({
                let start = old(cursor).offset();
                let window = old(cursor).contents().subrange(start, start + len);
                &&& (r is Ok <==> start + len <= old(cursor).contents().len() && dec_avps(
                    dict@,
                    window,
                ) is Some)
                &&& (r matches Ok(g) ==> {
                    &&& Some(g@) == dec_avps(dict@, window)
                    &&& avps_ok(g.spec_avps())
                    &&& final(cursor).offset() == start + len
                })
                &&& (r is Err ==> r->Err_0 is DecodeError || r->Err_0 is UnknownAvpCode)
            }),
        decreases old(cursor).contents().len() - old(cursor).offset(), 2int,
    {
        let avps = decode_avp_list(cursor, len, dict)?;
        Ok(Grouped { avps })
    }

    /// Appends the wire image of every member, each with its padding;
    /// fails exactly when a nested `Time` misses the wire window.
    #[verifier::loop_isolation(false)]
    pub fn encode_to(&self, out: &mut Vec<u8>) -> (r: Result<(), Error>)
        requires
            value_v_wf(AvpValueV::Grouped(self@)),
        ensures
            r is Ok <==> value_times_ok(AvpValueV::Grouped(self@)),
            r is Ok ==> final(out)@ == old(out)@ + avps_v_enc(self@),
            r is Err ==> old(out)@.is_prefix_of(final(out)@) && r->Err_0 is EncodeError,
        decreases *self,
    {
        let n = self.avps.len();
        let mut i: usize = 0;
        while i < n
            invariant
                0 <= i <= n,
                n == self.avps@.len(),
                self@.len() == n,
                value_v_wf(AvpValueV::Grouped(self@)),
                out@ == old(out)@ + avps_v_enc(self@.take(i as int)),
                forall|j: int| 0 <= j < i ==> avp_times_ok(#[trigger] self@[j]),
            decreases n - i,
        {
            proof {
                assert(self@[i as int] == self.avps@[i as int]@);
                lemma_avps_v_wf_index(self@, i as int);
            }
            let r = self.avps[i].encode_to(out);
            match r {
                Ok(()) => {},
                Err(e) => {
                    proof {
                        assert(!avp_times_ok(self@[i as int]));
                        if avps_times_ok(self@) {
                            lemma_avps_times_ok_index(self@, i as int);
                        }
                        assert(!value_times_ok(AvpValueV::Grouped(self@)));
                        let mid = old(out)@ + avps_v_enc(self@.take(i as int));
                        assert(mid.is_prefix_of(out@));
                        assert(old(out)@ =~= out@.take(old(out)@.len() as int));
                        assert(old(out)@.is_prefix_of(out@));
                    }
                    return Err(e);
                },
            }
            proof {
                lemma_avps_v_enc_snoc(self@, i as int);
            }
            i = i + 1;
        }
        proof {
            assert(self@.take(n as int) =~= self@);
            lemma_avps_times_ok_all(self@);
        }
        Ok(())
    }

    /// The byte length of the grouped value on the wire: the sum of each
    /// member's stored length and padding.
    #[verifier::loop_isolation(false)]
    pub fn length(&self) -> (r: u32)
        requires
            avps_ok(self.spec_avps()),
            0 <= avps_framed_len(self@) <= u32::MAX,
        ensures
            r == avps_framed_len(self@),
    {
        let n = self.avps.len();
        let mut total: u32 = 0;
        let mut i: usize = 0;
        while i < n
            invariant
                0 <= i <= n,
                n == self.avps@.len(),
                self@.len() == n,
                avps_ok(self.spec_avps()),
                avps_framed_len(self@) <= u32::MAX,
                total == avps_framed_len(self@.take(i as int)),
            decreases n - i,
        {
            let a = &self.avps[i];
            proof {
                assert(avp_ok(self.spec_avps()[i as int]));
                assert(self@[i as int] == self.spec_avps()[i as int]@);
                lemma_avps_framed_snoc(self@, i as int);
                lemma_avps_framed_split(self@, i as int + 1);
                lemma_avps_framed_len_nonneg(self@.skip(i as int + 1));
                lemma_value_v_len_nonneg(self@[i as int].value);
                assert(avp_v_framed(self@[i as int]) == a.spec_padding() + a@.header.length);
            }
            total = total + a.get_length() + a.get_padding() as u32;
            i = i + 1;
        }
        proof {
            assert(self@.take(n as int) =~= self@);
        }
        total
    }
}


impl Grouped {
    /// Renders each member on a fresh line, one nesting level deeper.
    pub fn fmt(&self, dict: &Dictionary, depth: usize) -> (r: String)
        ensures
            r@ == crate::avp::avps_fmt(dict@, self@, depth as int),
        decreases *self,
    {
        let mut out = String::new();
        let next: usize = if depth >= 64 {
            64
        } else {
            depth + 1
        };
        let n = self.avps.len();
        let mut i: usize = 0;
        proof {
            assert(self@.skip(0) =~= self@);
        }
        while i < n
            invariant
                0 <= i <= n,
                n == self.avps@.len(),
                self@.len() == n,
                next == crate::avp::depth_inc(depth as int),
                crate::avp::avps_fmt(dict@, self@, depth as int) == out@ + crate::avp::avps_fmt(
                    dict@,
                    self@.skip(i as int),
                    depth as int,
                ),
            decreases n - i,
        {
            crate::text::push_char(&mut out, '\n');
            proof {
                assert(self@.skip(i as int)[0] == self@[i as int]);
                assert(self@[i as int] == self.avps@[i as int]@);
                assert(self@.skip(i as int).drop_first() =~= self@.skip(i as int + 1));
            }
            let line = self.avps[i].fmt(dict, next);
            out.append(line.as_str());
            i = i + 1;
        }
        proof {
            assert(self@.skip(n as int) =~= Seq::<AvpV>::empty());
        }
        out
    }
}

} // verus!
