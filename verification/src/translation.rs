//! The translation request pipeline's data and its pure logic.
//!
//! The HTTP call itself lives in the unverified shell; this module owns
//! the request and response shapes, the text normalization applied before
//! a request, the prompt the request carries, and the mapping from a
//! provider response back to a caller-facing result.

use vstd::prelude::*;

use crate::api::chat_completions_endpoint;
use crate::text::{
    lowercase_char, spec_strip_trailing_slashes, uppercase_char,
};

verus! {

/// A translation request: the text and the language pair.
#[derive(Debug, Clone)]
pub struct TranslationRequest {
    pub text: String,
    pub from_lang: String,
    pub to_lang: String,
}

/// The caller-facing outcome of a translation.
#[derive(Debug, Clone)]
pub struct TranslationResult {
    pub translated_text: String,
    pub from_lang: String,
    pub to_lang: String,
    pub service: String,
}

/// A provider's answer to one request.
#[derive(Debug, Clone)]
pub struct TranslationResponse {
    pub translated_text: String,
    pub source_lang: String,
    pub target_lang: String,
}

/// The translation providers the subsystem can be pointed at.
#[derive(Clone, Copy, Debug, PartialEq, Eq, Structural)]
pub enum TranslationService {
    OpenAI,
    Google,
    Baidu,
}

impl TranslationService {
    /// The provider name promised by [`Self::label`].
    pub open spec fn spec_label(self) -> Seq<char> {
        match self {
            TranslationService::OpenAI => "OpenAI"@,
            TranslationService::Google => "Google"@,
            TranslationService::Baidu => "Baidu"@,
        }
    }

    /// The provider name reported in results.
    pub fn label(&self) -> (r: &'static str)
        ensures
            r@ == self.spec_label(),
    {
        match self {
            TranslationService::OpenAI => "OpenAI",
            TranslationService::Google => "Google",
            TranslationService::Baidu => "Baidu",
        }
    }

    /// The pure tail of a translation call: carry a provider response
    /// over into the caller-facing result, stamped with this provider's
    /// name.
    pub fn result_from_response(&self, response: TranslationResponse) -> (r: TranslationResult)
        ensures
            r.translated_text@ == response.translated_text@,
            r.from_lang@ == response.source_lang@,
            r.to_lang@ == response.target_lang@,
            r.service@ == self.spec_label(),
    {
        TranslationResult {
            translated_text: response.translated_text,
            from_lang: response.source_lang,
            to_lang: response.target_lang,
            service: self.label().to_owned(),
        }
    }
}

/// One configured translation client: credentials, endpoint base, model
/// and provider.
pub struct Translator {
    api_key: String,
    base_url: String,
    model_id: String,
    service: TranslationService,
}

impl Translator {
    /// The configured API key.
    pub closed spec fn spec_api_key(self) -> Seq<char> {
        self.api_key@
    }

    /// The configured base URL.
    pub closed spec fn spec_base_url(self) -> Seq<char> {
        self.base_url@
    }

    /// The configured model identifier.
    pub closed spec fn spec_model_id(self) -> Seq<char> {
        self.model_id@
    }

    /// The configured provider.
    pub closed spec fn spec_service(self) -> TranslationService {
        self.service
    }

    /// A client holding exactly the given configuration.
    pub fn new(
        api_key: String,
        base_url: String,
        model_id: String,
        service: TranslationService,
    ) -> (r: Translator)
        ensures
            r.spec_api_key() == api_key@,
            r.spec_base_url() == base_url@,
            r.spec_model_id() == model_id@,
            r.spec_service() == service,
    {
        Translator { api_key, base_url, model_id, service }
    }

    /// The configured API key.
    pub fn api_key(&self) -> (r: &String)
        ensures
            r@ == self.spec_api_key(),
    {
        &self.api_key
    }

    /// The configured base URL.
    pub fn base_url(&self) -> (r: &String)
        ensures
            r@ == self.spec_base_url(),
    {
        &self.base_url
    }

    /// The configured model identifier.
    pub fn model_id(&self) -> (r: &String)
        ensures
            r@ == self.spec_model_id(),
    {
        &self.model_id
    }

    /// The configured provider.
    pub fn service(&self) -> (r: TranslationService)
        ensures
            r == self.spec_service(),
    {
        self.service
    }

    /// The chat-completions endpoint this client posts to.
    pub fn endpoint(&self) -> (r: String)
        ensures
            r@ == spec_strip_trailing_slashes(self.spec_base_url()) + "/chat/completions"@,
    {
        chat_completions_endpoint(self.base_url.as_str())
    }

    /// What one character contributes to the normalized text, given
    /// whether the previous character was lowercase: separators become a
    /// space, an uppercase letter after a lowercase one gains a space
    /// before it, and everything else passes through.
    pub open spec fn normalize_step(c: char, prev_is_lower: bool) -> Seq<char> {
        if c == '_' || c == '-' {
            seq![' ']
        } else if uppercase_char(c) && prev_is_lower {
            seq![' ', c]
        } else {
            seq![c]
        }
    }

    /// Whether, after handling `c`, the previous character counts as
    /// lowercase for the next step.
    pub open spec fn normalize_next_prev(c: char, prev_is_lower: bool) -> bool {
        if c == '_' || c == '-' {
            false
        } else if uppercase_char(c) && prev_is_lower {
            false
        } else {
            lowercase_char(c)
        }
    }

    /// The normalized form of `s[i..]`, entered with the given
    /// previous-character state.
    pub open spec fn spec_normalize_from(s: Seq<char>, i: int, prev_is_lower: bool) -> Seq<char>
        decreases s.len() - i,
    {
        if i < 0 || i >= s.len() {
            Seq::empty()
        } else {
            Self::normalize_step(s[i], prev_is_lower) + Self::spec_normalize_from(
                s,
                i + 1,
                Self::normalize_next_prev(s[i], prev_is_lower),
            )
        }
    }

    /// The normalized form of a whole text.
    pub open spec fn spec_normalize(s: Seq<char>) -> Seq<char> {
        Self::spec_normalize_from(s, 0, false)
    }

    /// Rewrite snake_case and camelCase runs as space-separated words:
    /// `_` and `-` become spaces, and a space is inserted before an
    /// uppercase letter that follows a lowercase one.
    pub fn normalize_naming_convention(text: &str) -> (r: String)
        ensures
            r@ == Self::spec_normalize(text@),
    {
        proof {
            reveal_strlit(" ");
        }
        let len = text.unicode_len();
        let mut result = String::new();
        let mut prev_is_lower = false;
        let mut i: usize = 0;
        while i < len
            invariant
                len == text@.len(),
                i <= len,
                result@ + Self::spec_normalize_from(text@, i as int, prev_is_lower)
                    == Self::spec_normalize(text@),
            decreases len - i,
        {
            proof {
                reveal_strlit(" ");
            }
            let ghost pre = result@;
            let ghost step = Self::normalize_step(text@[i as int], prev_is_lower);
            let ghost rest = Self::spec_normalize_from(
                text@,
                i + 1,
                Self::normalize_next_prev(text@[i as int], prev_is_lower),
            );
            let ch = text.get_char(i);
            if ch == '_' || ch == '-' {
                result.append(" ");
                prev_is_lower = false;
                proof {
                    assert(" "@ =~= seq![' ']);
                }
            } else if ch.is_uppercase() && prev_is_lower {
                result.append(" ");
                let one = text.substring_char(i, i + 1);
                result.append(one);
                prev_is_lower = false;
                proof {
                    assert(one@ =~= seq![text@[i as int]]);
                    assert(" "@ + one@ =~= seq![' ', text@[i as int]]);
                }
            } else {
                let one = text.substring_char(i, i + 1);
                result.append(one);
                prev_is_lower = ch.is_lowercase();
                proof {
                    assert(one@ =~= seq![text@[i as int]]);
                }
            }
            proof {
                assert(result@ =~= pre + step);
                assert((pre + step) + rest =~= pre + (step + rest));
            }
            i += 1;
        }
        proof {
            assert(result@ + Seq::<char>::empty() =~= result@);
        }
        result
    }
}

/// The instruction sent with one translation request.
pub fn build_translation_prompt(from_lang: &str, to_lang: &str, text: &str) -> (r: String)
    ensures
        r@ == "Translate the following text from "@ + from_lang@ + " to "@ + to_lang@
            + ". Only return the translated text, no explanations:\n\n"@ + text@,
{
    let mut p = "Translate the following text from ".to_owned();
    p.append(from_lang);
    p.append(" to ");
    p.append(to_lang);
    p.append(". Only return the translated text, no explanations:\n\n");
    p.append(text);
    p
}

/// Assemble a provider response for a request: the extracted text plus
/// the request's language pair.
pub fn response_for_request(request: &TranslationRequest, translated_text: String) -> (r:
    TranslationResponse)
    ensures
        r.translated_text@ == translated_text@,
        r.source_lang@ == request.from_lang@,
        r.target_lang@ == request.to_lang@,
{
    TranslationResponse {
        translated_text,
        source_lang: request.from_lang.clone(),
        target_lang: request.to_lang.clone(),
    }
}

/// The `(code, display name)` views of a language list.
pub open spec fn pairs_view(ps: Seq<(String, String)>) -> Seq<(Seq<char>, Seq<char>)> {
    ps.map_values(|p: (String, String)| (p.0@, p.1@))
}

/// The language codes offered to the user, each with its display name,
/// as promised by [`get_supported_languages`].
pub open spec fn spec_supported_languages() -> Seq<(Seq<char>, Seq<char>)> {
    seq![
        ("auto"@, "自动检测"@),
        ("zh-CN"@, "中文"@),
        ("en"@, "英语"@),
        ("ja"@, "日语"@),
        ("ko"@, "韩语"@),
        ("fr"@, "法语"@),
        ("de"@, "德语"@),
        ("es"@, "西班牙语"@),
        ("ru"@, "俄语"@),
        ("ar"@, "阿拉伯语"@),
        ("pt"@, "葡萄牙语"@),
        ("it"@, "意大利语"@),
    ]
}

/// The fixed list of language choices, `auto` first.
pub fn get_supported_languages() -> (r: Vec<(String, String)>)
    ensures
        pairs_view(r@) == spec_supported_languages(),
{
    let mut v: Vec<(String, String)> = Vec::new();
    v.push(("auto".to_owned(), "自动检测".to_owned()));
    v.push(("zh-CN".to_owned(), "中文".to_owned()));
    v.push(("en".to_owned(), "英语".to_owned()));
    v.push(("ja".to_owned(), "日语".to_owned()));
    v.push(("ko".to_owned(), "韩语".to_owned()));
    v.push(("fr".to_owned(), "法语".to_owned()));
    v.push(("de".to_owned(), "德语".to_owned()));
    v.push(("es".to_owned(), "西班牙语".to_owned()));
    v.push(("ru".to_owned(), "俄语".to_owned()));
    v.push(("ar".to_owned(), "阿拉伯语".to_owned()));
    v.push(("pt".to_owned(), "葡萄牙语".to_owned()));
    v.push(("it".to_owned(), "意大利语".to_owned()));
    proof {
        assert(pairs_view(v@) =~= spec_supported_languages());
    }
    v
}

} // verus!
