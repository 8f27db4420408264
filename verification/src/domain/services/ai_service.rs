//! AI service: analysis, summaries and categories of document content.

use vstd::prelude::*;
use crate::domain::entities::DocumentId;
use crate::domain::entities::document::textos;
use crate::error::DomainError;

verus! {

/// Response of an AI analysis.
pub struct AiAnalysisResponse {
    pub summary: String,
    pub categories: Vec<String>,
    pub sentiment: Option<String>,
    pub key_points: Vec<String>,
}

/// The analysis that the built-in model gives for any content.
pub open spec fn es_analisis_provisional(a: AiAnalysisResponse) -> bool {
    &&& a.summary@ == "[AI Summary Placeholder]"@
    &&& textos(a.categories@) == seq!["general"@]
    &&& a.sentiment matches Some(s) && s@ == "neutral"@
    &&& textos(a.key_points@) == seq!["[Key Point Placeholder]"@]
}

/// Service for AI features; it needs an API key.
pub struct AiService {
    api_key: Option<String>,
}

impl AiService {
    /// The service has an API key.
    pub closed spec fn configurado(&self) -> bool {
        self.api_key is Some
    }

    /// A service with the given API key, if any.
    pub fn new(api_key: Option<String>) -> (r: AiService)
        ensures
            r.configurado() == api_key is Some,
    {
        AiService { api_key }
    }

    /// Analyzes document content; fails with `AiServiceNotConfigured` without an API key.
    pub fn analyze_document(&self, _document_id: DocumentId, content: &str) -> (r: Result<AiAnalysisResponse, DomainError>)
        ensures
            !self.configurado() <==> r matches Err(DomainError::AiServiceNotConfigured),
            r matches Ok(a) ==> es_analisis_provisional(a),
            self.configurado() ==> r is Ok,
    {
        if self.api_key.is_none() {
            return Err(DomainError::AiServiceNotConfigured);
        }
        self.call_ai_api(content)
    }

    /// Summarizes document content; fails with `AiServiceNotConfigured` without an API key.
    pub fn summarize(&self, content: &str) -> (r: Result<String, DomainError>)
        ensures
            !self.configurado() <==> r matches Err(DomainError::AiServiceNotConfigured),
            self.configurado() ==> (r matches Ok(s) && s@ == "[Summary Placeholder]"@),
    {
        if self.api_key.is_none() {
            return Err(DomainError::AiServiceNotConfigured);
        }
        self.call_summarization_api(content)
    }

    /// Extracts categories of document content; fails with `AiServiceNotConfigured`
    /// without an API key.
    pub fn extract_categories(&self, content: &str) -> (r: Result<Vec<String>, DomainError>)
        ensures
            !self.configurado() <==> r matches Err(DomainError::AiServiceNotConfigured),
            self.configurado() ==> (r matches Ok(v) && textos(v@) == seq!["general"@]),
    {
        if self.api_key.is_none() {
            return Err(DomainError::AiServiceNotConfigured);
        }
        self.call_categorization_api(content)
    }

    /// The built-in analysis model.
    fn call_ai_api(&self, _content: &str) -> (r: Result<AiAnalysisResponse, DomainError>)
        ensures
            r matches Ok(a) && es_analisis_provisional(a),
    {
        let categories = vec![String::from_str("general")];
        let key_points = vec![String::from_str("[Key Point Placeholder]")];
        let a = AiAnalysisResponse {
            summary: String::from_str("[AI Summary Placeholder]"),
            categories,
            sentiment: Some(String::from_str("neutral")),
            key_points,
        };
        assert(textos(a.categories@) =~= seq!["general"@]);
        assert(textos(a.key_points@) =~= seq!["[Key Point Placeholder]"@]);
        Ok(a)
    }

    /// The built-in summarization model.
    fn call_summarization_api(&self, _content: &str) -> (r: Result<String, DomainError>)
        ensures
            r matches Ok(s) && s@ == "[Summary Placeholder]"@,
    {
        Ok(String::from_str("[Summary Placeholder]"))
    }

    /// The built-in categorization model.
    fn call_categorization_api(&self, _content: &str) -> (r: Result<Vec<String>, DomainError>)
        ensures
            r matches Ok(v) && textos(v@) == seq!["general"@],
    {
        let v = vec![String::from_str("general")];
        assert(textos(v@) =~= seq!["general"@]);
        Ok(v)
    }
}

} // verus!
