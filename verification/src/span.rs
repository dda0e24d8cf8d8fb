//! Spans: generic units of timing that hang under any entity.

use crate::boundary::{built, EntityKind, Number, Request, RequestView};
use crate::codec::{get_now, UnixTime};
use crate::marshal::{c_encoding, encode_str, encoding_failure, EncodingError};
use crate::requests::{
    close_at, error_info, first_failure, number_tag, spec_error_info, spec_number_tag,
    spec_string_tag, string_tag,
};
use vstd::prelude::*;

verus! {

/// Handle of a span: its identifier and the identifier of the entity it was
/// created under.
#[derive(Clone, Copy, Debug, PartialEq, Eq, Structural)]
pub struct Span {
    /// Identifier that the native side gave the span.
    pub span_id: u64,
    /// Identifier of the session, module, suite, test or span above it.
    pub parent_id: u64,
}

impl Span {
    /// The request that creates a span starting at `start`, or the failure of
    /// the first string that cannot be sent.
    pub open spec fn spec_create(
        parent_id: u64,
        operation_name: Seq<char>,
        service_name: Seq<char>,
        resource_name: Seq<char>,
        span_type: Seq<char>,
        start: UnixTime,
    ) -> Result<RequestView, EncodingError> {
        match first_failure(
            encoding_failure(operation_name),
            first_failure(
                encoding_failure(service_name),
                first_failure(encoding_failure(resource_name), encoding_failure(span_type)),
            ),
        ) {
            Some(e) => Err(e),
            None => Ok(
                RequestView::CreateSpan {
                    parent_id,
                    operation_name: c_encoding(operation_name),
                    service_name: c_encoding(service_name),
                    resource_name: c_encoding(resource_name),
                    span_type: c_encoding(span_type),
                    start,
                },
            ),
        }
    }

    /// Builds the request that creates a span under `parent_id`, starting at
    /// `start`.
    pub fn create_at(
        parent_id: u64,
        operation_name: &str,
        service_name: &str,
        resource_name: &str,
        span_type: &str,
        start: UnixTime,
    ) -> (r: Result<Request, EncodingError>)
        ensures
            built(r) == Self::spec_create(
                parent_id,
                operation_name@,
                service_name@,
                resource_name@,
                span_type@,
                start,
            ),
    {
        let operation_name = match encode_str(operation_name) {
            Ok(buffer) => buffer,
            Err(e) => { return Err(e); },
        };
        let service_name = match encode_str(service_name) {
            Ok(buffer) => buffer,
            Err(e) => { return Err(e); },
        };
        let resource_name = match encode_str(resource_name) {
            Ok(buffer) => buffer,
            Err(e) => { return Err(e); },
        };
        let span_type = match encode_str(span_type) {
            Ok(buffer) => buffer,
            Err(e) => { return Err(e); },
        };
        Ok(
            Request::CreateSpan {
                parent_id,
                operation_name,
                service_name,
                resource_name,
                span_type,
                start,
            },
        )
    }

    /// Builds the request that creates a span under `parent_id`, starting
    /// now.
    pub fn create(
        parent_id: u64,
        operation_name: &str,
        service_name: &str,
        resource_name: &str,
        span_type: &str,
    ) -> (r: Result<Request, EncodingError>)
        ensures
            exists|start: UnixTime| #[trigger]
                start.wf() && built(r) == Self::spec_create(
                    parent_id,
                    operation_name@,
                    service_name@,
                    resource_name@,
                    span_type@,
                    start,
                ),
    {
        let start = get_now();
        let r = Self::create_at(
            parent_id,
            operation_name,
            service_name,
            resource_name,
            span_type,
            start,
        );
        assert(start.wf());
        r
    }

    /// The handle of the span that the native side created under `parent_id`
    /// with identifier `span_id`.
    pub fn created(parent_id: u64, span_id: u64) -> (span: Span)
        ensures
            span == (Span { span_id, parent_id }),
    {
        Span { span_id, parent_id }
    }

    /// Builds the request that sets a string tag on this span.
    pub fn set_string_tag(&self, key: &str, value: &str) -> (r: Result<Request, EncodingError>)
        ensures
            built(r) == spec_string_tag(EntityKind::Span, self.span_id, key@, value@),
    {
        string_tag(EntityKind::Span, self.span_id, key, value)
    }

    /// Builds the request that sets a numeric tag on this span.
    pub fn set_number_tag(&self, key: &str, value: Number) -> (r: Result<Request, EncodingError>)
        ensures
            built(r) == spec_number_tag(EntityKind::Span, self.span_id, key@, value),
    {
        number_tag(EntityKind::Span, self.span_id, key, value)
    }

    /// Builds the request that attaches an error to this span.
    pub fn set_error_info(&self, error_type: &str, error_message: &str, error_stacktrace: &str) -> (r:
        Result<Request, EncodingError>)
        ensures
            built(r) == spec_error_info(
                EntityKind::Span,
                self.span_id,
                error_type@,
                error_message@,
                error_stacktrace@,
            ),
    {
        error_info(EntityKind::Span, self.span_id, error_type, error_message, error_stacktrace)
    }

    /// Builds the request that closes this span at `finish`.
    pub fn close_at(&self, finish: UnixTime) -> (r: Request)
        ensures
            r@ == (RequestView::Close { entity: EntityKind::Span, id: self.span_id, finish }),
    {
        close_at(EntityKind::Span, self.span_id, finish)
    }

    /// Builds the request that closes this span now.
    pub fn close(&self) -> (r: Request)
        ensures
            exists|finish: UnixTime| #[trigger]
                finish.wf() && r@ == (RequestView::Close {
                    entity: EntityKind::Span,
                    id: self.span_id,
                    finish,
                }),
    {
        let finish = get_now();
        let r = self.close_at(finish);
        assert(finish.wf());
        r
    }
}

} // verus!
