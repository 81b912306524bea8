use vstd::prelude::*;
use crate::entry::{EntryExtraction, entry_destination, is_republished};
use crate::error::{Error, ErrorKind};
use crate::object_reader::{S3ObjectReader, initial_view, OBJECT_READER_MAX_BUF_SIZE};
use crate::preflight::{check_bucket_in_list, check_object_exists, listed};

verus! {

/// Where an extraction stands. Any failure leads to `Failed`, from which
/// nothing resumes.
#[derive(Clone, Copy, Debug, PartialEq, Eq, Structural)]
pub enum Phase {
    Start,
    Validating,
    Extracting,
    Done,
    Failed,
}

/// The decisions of one extraction of the archive `zip_name` in
/// `bucket_name`, republished under `prefix_name`. The caller performs the
/// storage calls and the archive decoding and reports what came back.
pub struct UnzipJob {
    bucket_name: String,
    zip_name: String,
    prefix_name: String,
    phase: Phase,
    bucket_found: bool,
}

impl UnzipJob {
    pub closed spec fn phase_spec(&self) -> Phase {
        self.phase
    }

    /// The destination bucket has been found in the account's listing.
    pub closed spec fn bucket_found_spec(&self) -> bool {
        self.bucket_found
    }

    pub closed spec fn bucket_spec(&self) -> Seq<char> {
        self.bucket_name@
    }

    pub closed spec fn zip_spec(&self) -> Seq<char> {
        self.zip_name@
    }

    pub closed spec fn prefix_spec(&self) -> Seq<char> {
        self.prefix_name@
    }

    pub fn new(bucket_name: String, zip_name: String, prefix_name: String) -> (r: Self)
        ensures
            r.phase_spec() == Phase::Start,
            !r.bucket_found_spec(),
            r.bucket_spec() == bucket_name@,
            r.zip_spec() == zip_name@,
            r.prefix_spec() == prefix_name@,
    {
        UnzipJob { bucket_name, zip_name, prefix_name, phase: Phase::Start, bucket_found: false }
    }

    pub fn phase(&self) -> (r: Phase)
        ensures
            r == self.phase_spec(),
    {
        self.phase
    }

    pub fn bucket_name(&self) -> (r: &String)
        ensures
            r@ == self.bucket_spec(),
    {
        &self.bucket_name
    }

    /// Starts the preflight: the caller lists the account's buckets next.
    pub fn start(&mut self)
        requires
            old(self).phase_spec() == Phase::Start,
        ensures
            final(self).phase_spec() == Phase::Validating,
            !final(self).bucket_found_spec(),
            final(self).bucket_spec() == old(self).bucket_spec(),
            final(self).zip_spec() == old(self).zip_spec(),
            final(self).prefix_spec() == old(self).prefix_spec(),
    {
        self.phase = Phase::Validating;
        self.bucket_found = false;
    }

    /// Takes the names of the account's buckets. The job fails with
    /// `NotFound` unless the destination bucket is among them.
    pub fn on_bucket_list(&mut self, bucket_names: &Vec<String>) -> (r: Result<(), Error>)
        requires
            old(self).phase_spec() == Phase::Validating,
            !old(self).bucket_found_spec(),
        ensures
            r is Ok <==> listed(bucket_names@, old(self).bucket_spec()),
            r is Err ==> r->Err_0.kind == ErrorKind::NotFound,
            final(self).phase_spec() == if r is Ok {
                Phase::Validating
            } else {
                Phase::Failed
            },
            final(self).bucket_found_spec() == r is Ok,
            final(self).bucket_spec() == old(self).bucket_spec(),
            final(self).zip_spec() == old(self).zip_spec(),
            final(self).prefix_spec() == old(self).prefix_spec(),
    {
        match check_bucket_in_list(bucket_names, &self.bucket_name) {
            Ok(()) => {
                self.bucket_found = true;
                Ok(())
            },
            Err(e) => {
                self.phase = Phase::Failed;
                Err(e)
            },
        }
    }

    /// Takes the keys listed in the bucket, once the bucket has been found.
    /// When the archive is among them extraction starts, with a fresh reader
    /// over the archive; otherwise the job fails with `NotFound` and no reader
    /// exists, so no fetch and no upload can follow.
    pub fn on_object_list(&mut self, object_keys: &Vec<String>) -> (r: Result<
        S3ObjectReader,
        Error,
    >)
        requires
            old(self).phase_spec() == Phase::Validating,
            old(self).bucket_found_spec(),
        ensures
            r is Ok <==> listed(object_keys@, old(self).zip_spec()),
            r is Err ==> r->Err_0.kind == ErrorKind::NotFound,
            r is Ok ==> ({
                let reader = r->Ok_0;
                &&& reader.wf()
                &&& reader@ == initial_view(OBJECT_READER_MAX_BUF_SIZE as nat)
                &&& reader.bucket_spec() == old(self).bucket_spec()
                &&& reader.object_spec() == old(self).zip_spec()
            }),
            final(self).phase_spec() == if r is Ok {
                Phase::Extracting
            } else {
                Phase::Failed
            },
            final(self).bucket_spec() == old(self).bucket_spec(),
            final(self).zip_spec() == old(self).zip_spec(),
            final(self).prefix_spec() == old(self).prefix_spec(),
    {
        match check_object_exists(object_keys, &self.zip_name) {
            Ok(()) => {
                self.phase = Phase::Extracting;
                Ok(S3ObjectReader::new(self.bucket_name.clone(), self.zip_name.clone()))
            },
            Err(e) => {
                self.phase = Phase::Failed;
                Err(e)
            },
        }
    }

    /// Takes the header of the next entry: it is started as the prefix and
    /// `size` say, and a path error fails the job.
    pub fn on_entry(&mut self, name: &String, enclosed_path: Option<String>, size: usize) -> (r:
        Result<EntryExtraction, Error>)
        requires
            old(self).phase_spec() == Phase::Extracting,
        ensures
            r is Err <==> (is_republished(name@, size as nat) && enclosed_path is None),
            r is Err ==> r->Err_0.kind == ErrorKind::Path,
            r is Ok ==> ({
                let e = r->Ok_0;
                &&& e.wf()
                &&& e.name_spec() == name@
                &&& e.size_spec() == size
                &&& e.data_spec() == Seq::<u8>::empty()
                &&& e.destination_spec() == entry_destination(
                    old(self).prefix_spec(),
                    name@,
                    enclosed_path->Some_0@,
                    size as nat,
                )
            }),
            final(self).phase_spec() == if r is Ok {
                Phase::Extracting
            } else {
                Phase::Failed
            },
            final(self).bucket_spec() == old(self).bucket_spec(),
            final(self).zip_spec() == old(self).zip_spec(),
            final(self).prefix_spec() == old(self).prefix_spec(),
    {
        let r = EntryExtraction::begin(&self.prefix_name, name, enclosed_path, size);
        if r.is_err() {
            self.phase = Phase::Failed;
        }
        r
    }

    /// The archive's end marker was reached: the job is done.
    pub fn on_end(&mut self)
        requires
            old(self).phase_spec() == Phase::Extracting,
        ensures
            final(self).phase_spec() == Phase::Done,
            final(self).bucket_spec() == old(self).bucket_spec(),
            final(self).zip_spec() == old(self).zip_spec(),
            final(self).prefix_spec() == old(self).prefix_spec(),
    {
        self.phase = Phase::Done;
    }

    /// A failure anywhere ends the job; the error is passed on unchanged.
    pub fn on_failure(&mut self, err: Error) -> (r: Error)
        ensures
            final(self).phase_spec() == Phase::Failed,
            r == err,
            final(self).bucket_spec() == old(self).bucket_spec(),
            final(self).zip_spec() == old(self).zip_spec(),
            final(self).prefix_spec() == old(self).prefix_spec(),
    {
        self.phase = Phase::Failed;
        err
    }
}

} // verus!
