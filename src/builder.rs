//! The staged constructor of points.
use vstd::prelude::*;
use crate::entries::{keys_unique, upsert, upserted};
use crate::error::ConversionError;
use crate::point::DataPoint;
use crate::timestamp::Timestamp;
use crate::value::Value;

verus! {

/// Gathers a point's measurement, tags, fields and instant. A point can be
/// taken from it only once it holds at least one field.
///
/// Setting a tag or a field whose key is already there replaces its value in
/// place (the last write wins); a new key comes after those already set.
#[derive(Debug)]
pub struct DataPointBuilder {
    measurement: String,
    tags: Vec<(String, String)>,
    fields: Vec<(String, Value)>,
    time: Option<Timestamp>,
}

impl DataPointBuilder {
    #[verifier::type_invariant]
    spec fn well_formed(&self) -> bool {
        &&& keys_unique(self.fields@)
        &&& keys_unique(self.tags@)
    }

    /// The measurement name.
    pub closed spec fn spec_measurement(&self) -> Seq<char> {
        self.measurement@
    }

    /// The tags set so far.
    pub closed spec fn spec_tags(&self) -> Seq<(String, String)> {
        self.tags@
    }

    /// The fields set so far.
    pub closed spec fn spec_fields(&self) -> Seq<(String, Value)> {
        self.fields@
    }

    /// The instant set last, if any.
    pub closed spec fn spec_time(&self) -> Option<Timestamp> {
        self.time
    }

    /// A builder for a point of the measurement, with no tag, no field and no
    /// instant.
    pub fn new(measurement: String) -> (r: DataPointBuilder)
        ensures
            r.spec_measurement() == measurement@,
            r.spec_tags() == Seq::<(String, String)>::empty(),
            r.spec_fields() == Seq::<(String, Value)>::empty(),
            r.spec_time() is None,
            keys_unique(r.spec_tags()),
            keys_unique(r.spec_fields()),
    {
        DataPointBuilder { measurement, tags: Vec::new(), fields: Vec::new(), time: None }
    }

    /// Sets a field.
    pub fn with_field(self, key: String, value: Value) -> (r: DataPointBuilder)
        ensures
            r.spec_measurement() == self.spec_measurement(),
            r.spec_tags() == self.spec_tags(),
            r.spec_fields() == upserted(self.spec_fields(), key, value),
            r.spec_time() == self.spec_time(),
            keys_unique(r.spec_tags()),
            keys_unique(r.spec_fields()),
    {
        proof {
            use_type_invariant(&self);
        }
        let DataPointBuilder { measurement, tags, mut fields, time } = self;
        upsert(&mut fields, key, value);
        DataPointBuilder { measurement, tags, fields, time }
    }

    /// Sets a tag.
    pub fn with_tag(self, key: String, value: String) -> (r: DataPointBuilder)
        ensures
            r.spec_measurement() == self.spec_measurement(),
            r.spec_tags() == upserted(self.spec_tags(), key, value),
            r.spec_fields() == self.spec_fields(),
            r.spec_time() == self.spec_time(),
            keys_unique(r.spec_tags()),
            keys_unique(r.spec_fields()),
    {
        proof {
            use_type_invariant(&self);
        }
        let DataPointBuilder { measurement, mut tags, fields, time } = self;
        upsert(&mut tags, key, value);
        DataPointBuilder { measurement, tags, fields, time }
    }

    /// Sets the instant, replacing any set before.
    pub fn with_time(self, time: Timestamp) -> (r: DataPointBuilder)
        ensures
            r.spec_measurement() == self.spec_measurement(),
            r.spec_tags() == self.spec_tags(),
            r.spec_fields() == self.spec_fields(),
            r.spec_time() == Some(time),
            keys_unique(r.spec_tags()),
            keys_unique(r.spec_fields()),
    {
        proof {
            use_type_invariant(&self);
        }
        let DataPointBuilder { measurement, tags, fields, time: _ } = self;
        DataPointBuilder { measurement, tags, fields, time: Some(time) }
    }

    /// The point gathered so far; `MissingField` where no field was set.
    pub fn build(self) -> (r: Result<DataPoint, ConversionError>)
        ensures
            r.is_ok() <==> self.spec_fields().len() >= 1,
            r.is_ok() ==> ({
                let d = r.unwrap();
                &&& d.spec_fields().len() >= 1
                &&& keys_unique(d.spec_tags())
                &&& keys_unique(d.spec_fields())
                &&& d.spec_measurement() == self.spec_measurement()
                &&& d.spec_tags() == self.spec_tags()
                &&& d.spec_fields() == self.spec_fields()
                &&& d.spec_time() == self.spec_time()
            }),
            r.is_err() ==> r == Err::<DataPoint, ConversionError>(ConversionError::MissingField),
    {
        proof {
            use_type_invariant(&self);
        }
        if self.fields.len() == 0 {
            return Err(ConversionError::MissingField);
        }
        let DataPointBuilder { measurement, tags, fields, time } = self;
        Ok(DataPoint::from_parts(measurement, tags, fields, time))
    }
}

} // verus!

verus! {

/// Setting a field always leaves at least one field, and never fewer than
/// before.
pub proof fn lemma_field_makes_buildable(fields: Seq<(String, Value)>, key: String, value: Value)
    ensures
        upserted(fields, key, value).len() >= 1,
        upserted(fields, key, value).len() >= fields.len(),
{
}

} // verus!
