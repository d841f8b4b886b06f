//! Points, the builder that makes them, and their Line Protocol text.
use vstd::prelude::*;
use crate::decimal::dec_int;
use crate::entries::keys_unique;
use crate::error::{ConversionError, is_time_error};
use crate::precision::WritePrecision;
use crate::timestamp::{Timestamp, epoch_units, fits_i64};
use crate::value::{Value, value_text};

verus! {

/// One observation: a measurement name, tags, at least one field, and an
/// optional instant (without one the store assigns its own time).
///
/// Tags and fields keep the order in which their keys were first set.
#[derive(Debug, PartialEq)]
pub struct DataPoint {
    measurement: String,
    tags: Vec<(String, String)>,
    fields: Vec<(String, Value)>,
    time: Option<Timestamp>,
}

/// The text `,key=value` for each tag, in order.
pub open spec fn tags_text(s: Seq<(String, String)>) -> Seq<char>
    decreases s.len(),
{
    if s.len() == 0 {
        Seq::empty()
    } else {
        tags_text(s.drop_last()) + seq![','] + s.last().0@ + seq!['='] + s.last().1@
    }
}

/// The text `key=token` of one field.
pub open spec fn field_text(f: (String, Value)) -> Seq<char> {
    f.0@ + seq!['='] + value_text(f.1)
}

/// The fields' texts in order, joined by commas.
pub open spec fn fields_text(s: Seq<(String, Value)>) -> Seq<char>
    decreases s.len(),
{
    if s.len() <= 1 {
        if s.len() == 0 {
            Seq::empty()
        } else {
            field_text(s[0])
        }
    } else {
        fields_text(s.drop_last()) + seq![','] + field_text(s.last())
    }
}

/// Whether the point's instant can be written at the precision.
pub open spec fn time_encodable(time: Option<Timestamp>, p: WritePrecision) -> bool {
    match time {
        Some(t) => fits_i64(epoch_units(t.spec_seconds(), t.spec_nanos(), p)),
        None => true,
    }
}

/// The trailing ` timestamp` of a line, empty without an instant.
pub open spec fn time_text(time: Option<Timestamp>, p: WritePrecision) -> Seq<char> {
    match time {
        Some(t) => seq![' '] + dec_int(epoch_units(t.spec_seconds(), t.spec_nanos(), p)),
        None => Seq::empty(),
    }
}

/// The Line Protocol line of a point:
/// `measurement[,tag=value]* field=token[,field=token]*[ timestamp]`.
pub open spec fn line_text(d: DataPoint, p: WritePrecision) -> Seq<char> {
    d.spec_measurement() + tags_text(d.spec_tags()) + seq![' '] + fields_text(d.spec_fields())
        + time_text(d.spec_time(), p)
}

/// Whether a point can be encoded at the precision.
pub open spec fn point_encodable(d: DataPoint, p: WritePrecision) -> bool {
    time_encodable(d.spec_time(), p)
}

impl DataPoint {
    #[verifier::type_invariant]
    spec fn well_formed(&self) -> bool {
        &&& self.fields@.len() >= 1
        &&& keys_unique(self.fields@)
        &&& keys_unique(self.tags@)
    }

    /// The measurement name.
    pub closed spec fn spec_measurement(&self) -> Seq<char> {
        self.measurement@
    }

    /// The tags, in the order in which their keys were first set.
    pub closed spec fn spec_tags(&self) -> Seq<(String, String)> {
        self.tags@
    }

    /// The fields, in the order in which their keys were first set.
    pub closed spec fn spec_fields(&self) -> Seq<(String, Value)> {
        self.fields@
    }

    /// The instant, if any.
    pub closed spec fn spec_time(&self) -> Option<Timestamp> {
        self.time
    }

    /// The point made of the parts; they hold at least one field and no key
    /// twice among the tags or among the fields.
    pub(crate) fn from_parts(
        measurement: String,
        tags: Vec<(String, String)>,
        fields: Vec<(String, Value)>,
        time: Option<Timestamp>,
    ) -> (r: DataPoint)
        requires
            fields@.len() >= 1,
            keys_unique(fields@),
            keys_unique(tags@),
        ensures
            r.spec_measurement() == measurement@,
            r.spec_tags() == tags@,
            r.spec_fields() == fields@,
            r.spec_time() == time,
    {
        DataPoint { measurement, tags, fields, time }
    }

    /// The measurement name.
    pub fn measurement(&self) -> (r: &String)
        ensures
            r@ == self.spec_measurement(),
    {
        &self.measurement
    }

    /// The tags, in the order in which their keys were first set.
    pub fn tags(&self) -> (r: &Vec<(String, String)>)
        ensures
            r@ == self.spec_tags(),
            keys_unique(r@),
    {
        proof {
            use_type_invariant(self);
        }
        &self.tags
    }

    /// The fields, in the order in which their keys were first set: never
    /// none, and no key twice.
    pub fn fields(&self) -> (r: &Vec<(String, Value)>)
        ensures
            r@ == self.spec_fields(),
            r@.len() >= 1,
            keys_unique(r@),
    {
        proof {
            use_type_invariant(self);
        }
        &self.fields
    }

    /// The instant, if any.
    pub fn time(&self) -> (r: Option<Timestamp>)
        ensures
            r == self.spec_time(),
    {
        self.time
    }

    /// The point's Line Protocol line at the precision. Fails only where the
    /// instant cannot be counted in the precision's units, with a
    /// `TimeConversionError`, which only nanoseconds can give.
    pub fn to_line_protocol(&self, precision: WritePrecision) -> (r: Result<String, ConversionError>)
        ensures
            r.is_ok() <==> point_encodable(*self, precision),
            r.is_ok() ==> r.unwrap()@ == line_text(*self, precision),
            precision != WritePrecision::NS ==> r.is_ok(),
            r.is_err() ==> is_time_error(r->Err_0),
    {
        proof {
            use_type_invariant(self);
            reveal_strlit(" ");
            assert(" "@ =~= seq![' ']);
        }
        let mut buf = self.measurement.clone();
        let mut i: usize = 0;
        while i < self.tags.len()
            invariant
                0 <= i <= self.tags@.len(),
                buf@ == self.measurement@ + tags_text(self.tags@.subrange(0, i as int)),
            decreases self.tags@.len() - i,
        {
            let tag = &self.tags[i];
            proof {
                reveal_strlit(",");
                reveal_strlit("=");
                assert(","@ =~= seq![',']);
                assert("="@ =~= seq!['=']);
            }
            buf.append(",");
            buf.append(tag.0.as_str());
            buf.append("=");
            buf.append(tag.1.as_str());
            proof {
                let s = self.tags@;
                assert(s.subrange(0, i + 1).drop_last() =~= s.subrange(0, i as int));
            }
            i = i + 1;
        }
        assert(self.tags@.subrange(0, self.tags@.len() as int) =~= self.tags@);
        buf.append(" ");
        let ghost head = buf@;
        let mut j: usize = 0;
        while j < self.fields.len()
            invariant
                0 <= j <= self.fields@.len(),
                buf@ == head + fields_text(self.fields@.subrange(0, j as int)),
            decreases self.fields@.len() - j,
        {
            let field = &self.fields[j];
            let ghost before = buf@;
            proof {
                reveal_strlit(",");
                reveal_strlit("=");
                assert(","@ =~= seq![',']);
                assert("="@ =~= seq!['=']);
            }
            if j > 0 {
                buf.append(",");
            }
            buf.append(field.0.as_str());
            buf.append("=");
            let token = field.1.to_line_protocol();
            buf.append(token.as_str());
            proof {
                let s = self.fields@;
                assert(s.subrange(0, j + 1).drop_last() =~= s.subrange(0, j as int));
                if j == 0 {
                    assert(buf@ =~= head + field_text(s[0]));
                } else {
                    assert(buf@ =~= before + seq![','] + field_text(s[j as int]));
                }
            }
            j = j + 1;
        }
        assert(self.fields@.subrange(0, self.fields@.len() as int) =~= self.fields@);
        match &self.time {
            Some(t) => {
                match t.to_line_protocol(precision) {
                    Ok(text) => {
                        buf.append(" ");
                        buf.append(text.as_str());
                    },
                    Err(e) => {
                        return Err(e);
                    },
                }
            },
            None => {},
        }
        Ok(buf)
    }
}

/// The lines of a batch joined by newlines, in order.
pub open spec fn joined_lines(lines: Seq<Seq<char>>) -> Seq<char>
    decreases lines.len(),
{
    if lines.len() <= 1 {
        if lines.len() == 0 {
            Seq::empty()
        } else {
            lines[0]
        }
    } else {
        joined_lines(lines.drop_last()) + seq!['\n'] + lines.last()
    }
}

/// The Line Protocol line of each point of a batch, in order.
pub open spec fn batch_lines(points: Seq<DataPoint>, p: WritePrecision) -> Seq<Seq<char>> {
    points.map_values(|d: DataPoint| line_text(d, p))
}

/// Whether every point of a batch can be encoded at the precision.
pub open spec fn batch_encodable(points: Seq<DataPoint>, p: WritePrecision) -> bool {
    forall|i: int| 0 <= i < points.len() ==> point_encodable(#[trigger] points[i], p)
}

/// The Line Protocol text of a batch: each point's line at the one precision,
/// in order, joined by newlines. Fails where some point cannot be encoded.
pub fn batch_to_line_protocol(points: &Vec<DataPoint>, precision: WritePrecision) -> (r: Result<
    String,
    ConversionError,
>)
    ensures
        r.is_ok() <==> batch_encodable(points@, precision),
        r.is_ok() ==> r.unwrap()@ == joined_lines(batch_lines(points@, precision)),
        r.is_err() ==> is_time_error(r->Err_0),
{
    let mut buf = String::new();
    let mut i: usize = 0;
    while i < points.len()
        invariant
            0 <= i <= points@.len(),
            batch_encodable(points@.subrange(0, i as int), precision),
            buf@ == joined_lines(batch_lines(points@.subrange(0, i as int), precision)),
        decreases points@.len() - i,
    {
        let line = match points[i].to_line_protocol(precision) {
            Ok(line) => line,
            Err(e) => {
                return Err(e);
            },
        };
        let ghost before = buf@;
        proof {
            reveal_strlit("\n");
            assert("\n"@ =~= seq!['\n']);
        }
        if i > 0 {
            buf.append("\n");
        }
        buf.append(line.as_str());
        proof {
            let s = points@;
            let next = s.subrange(0, i + 1);
            assert(next.drop_last() =~= s.subrange(0, i as int));
            assert(batch_lines(next, precision).drop_last() =~= batch_lines(
                s.subrange(0, i as int),
                precision,
            ));
            assert forall|k: int| 0 <= k < next.len() implies point_encodable(
                #[trigger] next[k],
                precision,
            ) by {
                if k < i {
                    assert(next[k] == s.subrange(0, i as int)[k]);
                }
            }
            if i == 0 {
                assert(buf@ =~= line@);
            } else {
                assert(buf@ =~= before + seq!['\n'] + line@);
            }
        }
        i = i + 1;
    }
    assert(points@.subrange(0, points@.len() as int) =~= points@);
    Ok(buf)
}

} // verus!

verus! {

/// A batch of two points is encoded as the first point's line, a newline,
/// and the second point's line; it can be encoded exactly when both can.
pub proof fn lemma_two_point_batch(a: DataPoint, b: DataPoint, p: WritePrecision)
    ensures
        joined_lines(batch_lines(seq![a, b], p)) == line_text(a, p) + seq!['\n'] + line_text(b, p),
        batch_encodable(seq![a, b], p) <==> (point_encodable(a, p) && point_encodable(b, p)),
{
    let lines = batch_lines(seq![a, b], p);
    assert(seq![a, b][0] == a);
    assert(seq![a, b][1] == b);
    assert(lines.len() == 2);
    assert(lines.drop_last() =~= seq![line_text(a, p)]);
    assert(joined_lines(lines.drop_last()) == line_text(a, p));
    assert(lines.last() == line_text(b, p));
}

} // verus!
