//! Requests to store an object, and the answers to them.

use crate::s3::checksum::{base64_text, buffer_contents, digest_text, md5_digest, md5_of};
use crate::s3::event::{EventFinalizers, EventStatus, GroupedCountByteSize, RequestMetadata};
use crate::s3::form::form_text;
use crate::s3::tags::{ascending, S3Tags};
use crate::text::{copy_text, text_of};
use bytes::Bytes;
use vstd::prelude::*;

verus! {

/// The content type of objects for which none is configured.
pub const DEFAULT_CONTENT_TYPE: &'static str = "text/x-log";

/// The options of the objects of a sink.
///
/// Access control lists, encryptions and storage classes go by their names in the S3 API.
#[derive(Debug)]
pub struct S3Options {
    pub acl: Option<String>,
    pub grant_full_control: Option<String>,
    pub grant_read: Option<String>,
    pub grant_read_acp: Option<String>,
    pub grant_write_acp: Option<String>,
    pub server_side_encryption: Option<String>,
    pub ssekms_key_id: Option<String>,
    pub storage_class: String,
    pub tags: Option<S3Tags>,
    /// Overrides the content encoding of the request.
    pub content_encoding: Option<String>,
    /// Overrides [`DEFAULT_CONTENT_TYPE`].
    pub content_type: Option<String>,
}

/// The part of a bucket that an object belongs to.
#[derive(Debug)]
pub struct S3PartitionKey {
    pub key_prefix: String,
    pub ssekms_key_id: Option<String>,
}

/// What a request carries beside the object itself.
#[derive(Debug)]
pub struct S3Metadata {
    pub partition_key: S3PartitionKey,
    pub s3_key: String,
    pub finalizers: EventFinalizers,
}

/// A request to store an object.
#[derive(Debug)]
pub struct S3Request {
    pub body: Bytes,
    pub bucket: String,
    pub metadata: S3Metadata,
    pub request_metadata: RequestMetadata,
    pub content_encoding: Option<&'static str>,
    pub options: S3Options,
}

impl S3Options {
    /// Whether both ask for the same.
    pub open spec fn agrees(self, other: S3Options) -> bool {
        &&& self.acl == other.acl
        &&& self.grant_full_control == other.grant_full_control
        &&& self.grant_read == other.grant_read
        &&& self.grant_read_acp == other.grant_read_acp
        &&& self.grant_write_acp == other.grant_write_acp
        &&& self.server_side_encryption == other.server_side_encryption
        &&& self.ssekms_key_id == other.ssekms_key_id
        &&& self.storage_class == other.storage_class
        &&& match (self.tags, other.tags) {
            (Some(a), Some(b)) => a.pairs() == b.pairs(),
            (None, None) => true,
            _ => false,
        }
        &&& self.content_encoding == other.content_encoding
        &&& self.content_type == other.content_type
    }
}

impl S3Metadata {
    /// Whether both hold the same.
    pub open spec fn agrees(self, other: S3Metadata) -> bool {
        &&& self.partition_key == other.partition_key
        &&& self.s3_key == other.s3_key
        &&& self.finalizers.batches@ == other.finalizers.batches@
    }
}

impl S3Request {
    /// Whether both ask for the same: the same object, under the same key, in the same way, with
    /// the same events.
    pub open spec fn agrees(self, other: S3Request) -> bool {
        &&& buffer_contents(self.body) == buffer_contents(other.body)
        &&& self.bucket == other.bucket
        &&& self.metadata.agrees(other.metadata)
        &&& self.request_metadata.agrees(other.request_metadata)
        &&& self.content_encoding == other.content_encoding
        &&& self.options.agrees(other.options)
    }
}

impl Clone for S3Options {
    fn clone(&self) -> (copy: S3Options)
        ensures
            copy.agrees(*self),
            copy.acl == self.acl,
            copy.grant_full_control == self.grant_full_control,
            copy.grant_read == self.grant_read,
            copy.grant_read_acp == self.grant_read_acp,
            copy.grant_write_acp == self.grant_write_acp,
            copy.server_side_encryption == self.server_side_encryption,
            copy.ssekms_key_id == self.ssekms_key_id,
            copy.storage_class == self.storage_class,
            copy.content_encoding == self.content_encoding,
            copy.content_type == self.content_type,
            copy.tags is Some <==> self.tags is Some,
            copy.tags matches Some(tags) ==> tags.pairs() == self.tags->0.pairs(),
    {
        S3Options {
            acl: copy_text(&self.acl),
            grant_full_control: copy_text(&self.grant_full_control),
            grant_read: copy_text(&self.grant_read),
            grant_read_acp: copy_text(&self.grant_read_acp),
            grant_write_acp: copy_text(&self.grant_write_acp),
            server_side_encryption: copy_text(&self.server_side_encryption),
            ssekms_key_id: copy_text(&self.ssekms_key_id),
            storage_class: self.storage_class.clone(),
            tags: match &self.tags {
                Some(tags) => Some(tags.clone()),
                None => None,
            },
            content_encoding: copy_text(&self.content_encoding),
            content_type: copy_text(&self.content_type),
        }
    }
}

impl Clone for S3PartitionKey {
    fn clone(&self) -> (copy: S3PartitionKey)
        ensures
            copy == *self,
    {
        S3PartitionKey {
            key_prefix: self.key_prefix.clone(),
            ssekms_key_id: copy_text(&self.ssekms_key_id),
        }
    }
}

impl Clone for S3Metadata {
    fn clone(&self) -> (copy: S3Metadata)
        ensures
            copy.agrees(*self),
            copy.partition_key == self.partition_key,
            copy.s3_key == self.s3_key,
            copy.finalizers.batches@ == self.finalizers.batches@,
    {
        S3Metadata {
            partition_key: self.partition_key.clone(),
            s3_key: self.s3_key.clone(),
            finalizers: self.finalizers.clone(),
        }
    }
}

impl Clone for S3Request {
    fn clone(&self) -> (copy: S3Request)
        ensures
            copy.agrees(*self),
            buffer_contents(copy.body) == buffer_contents(self.body),
            copy.bucket == self.bucket,
            copy.content_encoding == self.content_encoding,
            copy.metadata.partition_key == self.metadata.partition_key,
            copy.metadata.s3_key == self.metadata.s3_key,
            copy.metadata.finalizers.batches@ == self.metadata.finalizers.batches@,
            copy.request_metadata.event_count == self.request_metadata.event_count,
            copy.request_metadata.events_byte_size == self.request_metadata.events_byte_size,
            copy.request_metadata.request_encoded_size
                == self.request_metadata.request_encoded_size,
            copy.request_metadata.request_wire_size == self.request_metadata.request_wire_size,
            match self.request_metadata.events_estimated_json_encoded_byte_size {
                GroupedCountByteSize::Untagged { size } =>
                    copy.request_metadata.events_estimated_json_encoded_byte_size == (
                GroupedCountByteSize::Untagged { size }),
                GroupedCountByteSize::Tagged { sizes } =>
                    copy.request_metadata.events_estimated_json_encoded_byte_size is Tagged
                        && copy.request_metadata.events_estimated_json_encoded_byte_size->sizes@
                        == sizes@,
            },
            copy.options.acl == self.options.acl,
            copy.options.grant_full_control == self.options.grant_full_control,
            copy.options.grant_read == self.options.grant_read,
            copy.options.grant_read_acp == self.options.grant_read_acp,
            copy.options.grant_write_acp == self.options.grant_write_acp,
            copy.options.server_side_encryption == self.options.server_side_encryption,
            copy.options.ssekms_key_id == self.options.ssekms_key_id,
            copy.options.storage_class == self.options.storage_class,
            copy.options.content_encoding == self.options.content_encoding,
            copy.options.content_type == self.options.content_type,
            copy.options.tags is Some <==> self.options.tags is Some,
            copy.options.tags matches Some(tags) ==> tags.pairs() == self.options.tags->0.pairs(),
    {
        S3Request {
            body: self.body.clone(),
            bucket: self.bucket.clone(),
            metadata: self.metadata.clone(),
            request_metadata: self.request_metadata.clone(),
            content_encoding: self.content_encoding,
            options: self.options.clone(),
        }
    }
}

/// The parameters of a `PutObject` call.
#[derive(Debug)]
pub struct PutObject {
    pub body: Bytes,
    pub bucket: String,
    pub key: String,
    pub content_encoding: Option<String>,
    pub content_type: String,
    pub acl: Option<String>,
    pub grant_full_control: Option<String>,
    pub grant_read: Option<String>,
    pub grant_read_acp: Option<String>,
    pub grant_write_acp: Option<String>,
    pub server_side_encryption: Option<String>,
    pub ssekms_key_id: Option<String>,
    pub storage_class: String,
    pub tagging: Option<String>,
    pub content_md5: String,
}

/// The answer to a request whose object was stored.
#[derive(Debug)]
pub struct S3Response {
    events_byte_size: GroupedCountByteSize,
}

impl S3Response {
    /// The estimated size of the events that were delivered.
    pub closed spec fn size(self) -> GroupedCountByteSize {
        self.events_byte_size
    }

    pub fn event_status(&self) -> (status: EventStatus)
        ensures
            status == EventStatus::Delivered,
    {
        EventStatus::Delivered
    }

    pub fn events_sent(&self) -> (size: &GroupedCountByteSize)
        ensures
            *size == self.size(),
    {
        &self.events_byte_size
    }
}

/// The answer to a request whose `PutObject` call ended in `result`.
pub fn respond<E>(result: Result<(), E>, events_byte_size: GroupedCountByteSize) -> (response:
    Result<S3Response, E>)
    ensures
        match result {
            Ok(()) => response matches Ok(r) && r.size() == events_byte_size,
            Err(e) => response == Err::<S3Response, E>(e),
        },
{
    match result {
        Ok(()) => Ok(S3Response { events_byte_size }),
        Err(e) => Err(e),
    }
}

impl S3Options {
    /// The content encoding of an object: the configured one, else that of the request.
    pub open spec fn effective_content_encoding(self, of_request: Option<&'static str>) -> Option<
        Seq<char>,
    > {
        match self.content_encoding {
            Some(configured) => Some(configured@),
            None => match of_request {
                Some(encoding) => Some(encoding@),
                None => None,
            },
        }
    }

    /// The content type of an object: the configured one, else the default.
    pub open spec fn effective_content_type(self) -> Seq<char> {
        match self.content_type {
            Some(configured) => configured@,
            None => DEFAULT_CONTENT_TYPE@,
        }
    }

    /// The tags of an object as they are sent.
    pub open spec fn tagging(self) -> Option<Seq<char>> {
        match self.tags {
            Some(tags) => Some(form_text(tags.pairs())),
            None => None,
        }
    }
}

impl PutObject {
    /// Whether these are the parameters for `request`, with a body of this digest.
    pub open spec fn stores(self, request: S3Request, digest: Seq<u8>) -> bool {
        &&& self.body == request.body
        &&& self.bucket == request.bucket
        &&& self.key == request.metadata.s3_key
        &&& text_of(self.content_encoding) == request.options.effective_content_encoding(
            request.content_encoding,
        )
        &&& self.content_type@ == request.options.effective_content_type()
        &&& self.acl == request.options.acl
        &&& self.grant_full_control == request.options.grant_full_control
        &&& self.grant_read == request.options.grant_read
        &&& self.grant_read_acp == request.options.grant_read_acp
        &&& self.grant_write_acp == request.options.grant_write_acp
        &&& self.server_side_encryption == request.options.server_side_encryption
        &&& self.ssekms_key_id == request.options.ssekms_key_id
        &&& self.storage_class == request.options.storage_class
        &&& text_of(self.tagging) == request.options.tagging()
        &&& self.content_md5@ == base64_text(digest)
    }
}

impl S3Request {
    /// Takes the finalizers out of the request and leaves none.
    pub fn take_finalizers(&mut self) -> (finalizers: EventFinalizers)
        ensures
            finalizers == old(self).metadata.finalizers,
            final(self).metadata.finalizers.is_empty(),
            final(self).metadata.finalizers.batches@.len() == 0,
            *final(self) == (S3Request {
                metadata: S3Metadata {
                    finalizers: final(self).metadata.finalizers,
                    ..old(self).metadata
                },
                ..*old(self)
            }),
    {
        let mut finalizers = EventFinalizers::default();
        std::mem::swap(&mut finalizers, &mut self.metadata.finalizers);
        finalizers
    }

    pub fn get_metadata(&self) -> (metadata: &RequestMetadata)
        ensures
            *metadata == self.request_metadata,
    {
        &self.request_metadata
    }

    pub fn metadata_mut(&mut self) -> (metadata: &mut RequestMetadata)
        ensures
            *metadata == old(self).request_metadata,
            *final(self) == (S3Request { request_metadata: *final(metadata), ..*old(self) }),
    {
        &mut self.request_metadata
    }

    /// The parameters of the `PutObject` call for this request, with a body of this digest, and
    /// the estimated size of its events.
    pub fn into_put_object_with(self, digest: &[u8; 16]) -> (put: (PutObject, GroupedCountByteSize))
        ensures
            put.0.stores(self, digest@),
            put.1 == self.request_metadata.events_estimated_json_encoded_byte_size,
            self.options.tags matches Some(tags) ==> ascending(tags.pairs()),
            put.0.body == self.body,
            put.0.bucket == self.bucket,
            put.0.key == self.metadata.s3_key,
            put.0.acl == self.options.acl,
            put.0.grant_full_control == self.options.grant_full_control,
            put.0.grant_read == self.options.grant_read,
            put.0.grant_read_acp == self.options.grant_read_acp,
            put.0.grant_write_acp == self.options.grant_write_acp,
            put.0.server_side_encryption == self.options.server_side_encryption,
            put.0.ssekms_key_id == self.options.ssekms_key_id,
            put.0.storage_class == self.options.storage_class,
            match put.0.content_encoding {
                Some(encoding) => (self.options.content_encoding matches Some(configured)
                    && encoding@ == configured@) || (self.options.content_encoding is None
                    && self.content_encoding is Some && encoding@ == self.content_encoding->0@),
                None => self.options.content_encoding is None && self.content_encoding is None,
            },
            self.options.content_type matches Some(configured) ==> put.0.content_type@
                == configured@,
            self.options.content_type is None ==> put.0.content_type@ == "text/x-log"@,
            put.0.tagging is Some <==> self.options.tags is Some,
            self.options.tags matches Some(tags) ==> put.0.tagging->0@ == form_text(tags.pairs()),
            put.0.content_md5@ == base64_text(digest@),
    {
        let options = self.options;
        let content_encoding = match options.content_encoding {
            Some(configured) => Some(configured),
            None => match self.content_encoding {
                Some(encoding) => Some(encoding.to_owned()),
                None => None,
            },
        };
        let content_type = match options.content_type {
            Some(configured) => configured,
            None => DEFAULT_CONTENT_TYPE.to_owned(),
        };
        let content_md5 = digest_text(digest);
        let tagging = match options.tags {
            Some(tags) => Some(tags.tagging()),
            None => None,
        };
        let events_byte_size =
            self.request_metadata.into_events_estimated_json_encoded_byte_size();
        let put = PutObject {
            body: self.body,
            bucket: self.bucket,
            key: self.metadata.s3_key,
            content_encoding,
            content_type,
            acl: options.acl,
            grant_full_control: options.grant_full_control,
            grant_read: options.grant_read,
            grant_read_acp: options.grant_read_acp,
            grant_write_acp: options.grant_write_acp,
            server_side_encryption: options.server_side_encryption,
            ssekms_key_id: options.ssekms_key_id,
            storage_class: options.storage_class,
            tagging,
            content_md5,
        };
        (put, events_byte_size)
    }

    /// The parameters of the `PutObject` call for this request, and the estimated size of its
    /// events.
    pub fn into_put_object(self) -> (put: (PutObject, GroupedCountByteSize))
        ensures
            put.0.stores(self, md5_digest(buffer_contents(self.body))),
            put.1 == self.request_metadata.events_estimated_json_encoded_byte_size,
            self.options.tags matches Some(tags) ==> ascending(tags.pairs()),
            put.0.body == self.body,
            put.0.bucket == self.bucket,
            put.0.key == self.metadata.s3_key,
            put.0.acl == self.options.acl,
            put.0.grant_full_control == self.options.grant_full_control,
            put.0.grant_read == self.options.grant_read,
            put.0.grant_read_acp == self.options.grant_read_acp,
            put.0.grant_write_acp == self.options.grant_write_acp,
            put.0.server_side_encryption == self.options.server_side_encryption,
            put.0.ssekms_key_id == self.options.ssekms_key_id,
            put.0.storage_class == self.options.storage_class,
            match put.0.content_encoding {
                Some(encoding) => (self.options.content_encoding matches Some(configured)
                    && encoding@ == configured@) || (self.options.content_encoding is None
                    && self.content_encoding is Some && encoding@ == self.content_encoding->0@),
                None => self.options.content_encoding is None && self.content_encoding is None,
            },
            self.options.content_type matches Some(configured) ==> put.0.content_type@
                == configured@,
            self.options.content_type is None ==> put.0.content_type@ == "text/x-log"@,
            put.0.tagging is Some <==> self.options.tags is Some,
            self.options.tags matches Some(tags) ==> put.0.tagging->0@ == form_text(tags.pairs()),
            put.0.content_md5@ == base64_text(md5_digest(buffer_contents(self.body))),
    {
        let digest = md5_of(&self.body);
        self.into_put_object_with(&digest)
    }
}

} // verus!
