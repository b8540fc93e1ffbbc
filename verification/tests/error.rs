use mod_images::error::Severity;
use mod_images::signature_validation::ExtractFailure;
use mod_images::Error;

#[test]
fn handshake_failures_are_bad_requests() {
    assert_eq!(Error::InvalidState.status(), 400);
    assert_eq!(Error::CodeExchangeFailed.status(), 400);
    assert_eq!(Error::Image.status(), 400);
}

#[test]
fn authenticity_failures_are_unauthorized() {
    assert_eq!(Error::MissingHeader("x-signature-ed25519").status(), 401);
    assert_eq!(Error::InvalidSignature(ExtractFailure::Hex).status(), 401);
    assert_eq!(Error::InvalidSignature(ExtractFailure::Signature).status(), 401);
    assert_eq!(Error::InvalidSignature(ExtractFailure::Deserialize).status(), 401);
    assert_eq!(Error::Unauthorized.status(), 401);
}

#[test]
fn missing_standing_is_forbidden() {
    assert_eq!(Error::NoPermissions.status(), 403);
}

#[test]
fn missing_page_is_not_found() {
    assert_eq!(Error::NotFound.status(), 404);
}

#[test]
fn everything_else_is_internal() {
    let internal = [
        Error::S3,
        Error::Redis,
        Error::Http,
        Error::DiscordApiRequestValidate,
        Error::DiscordApiHttp,
        Error::DiscordApiDeserializeModel,
        Error::Askama,
        Error::Json,
        Error::OAuth2RequestToken,
        Error::OAuth2Url,
        Error::Join,
        Error::WebPStr("bad chunk".to_string()),
        Error::MissingCommandData,
        Error::MissingTarget,
        Error::NoResolvedData,
        Error::MessageNotFound,
    ];
    for e in internal {
        assert_eq!(e.status(), 500);
        assert_eq!(e.severity(), Severity::Error);
    }
}

#[test]
fn forged_requests_are_worth_a_warning() {
    assert_eq!(Error::InvalidSignature(ExtractFailure::Signature).severity(), Severity::Warning);
    assert_eq!(Error::MissingHeader("x-signature-timestamp").severity(), Severity::Debug);
    assert_eq!(Error::InvalidState.severity(), Severity::Debug);
    assert_eq!(Error::NoPermissions.severity(), Severity::Debug);
    assert_eq!(Error::NotFound.severity(), Severity::Debug);
}

#[test]
fn messages_name_the_failure() {
    assert_eq!(Error::S3.message(), "S3 error");
    assert_eq!(Error::Redis.message(), "Redis error");
    assert_eq!(Error::Http.message(), "HTTP error");
    assert_eq!(Error::DiscordApiRequestValidate.message(), "Discord API HTTP error");
    assert_eq!(Error::DiscordApiHttp.message(), "Discord API HTTP error");
    assert_eq!(Error::DiscordApiDeserializeModel.message(), "Discord API model error");
    assert_eq!(Error::Askama.message(), "Templating error");
    assert_eq!(Error::Json.message(), "JSON error");
    assert_eq!(Error::Image.message(), "Image load error");
    assert_eq!(Error::OAuth2RequestToken.message(), "OAuth2 token error");
    assert_eq!(Error::OAuth2Url.message(), "OAuth2 URL parse error");
    assert_eq!(Error::Join.message(), "Join error");
    assert_eq!(Error::CodeExchangeFailed.message(), "OAuth2 Code Exchange failed");
    assert_eq!(
        Error::InvalidSignature(ExtractFailure::Signature).message(),
        "Failed to extract secure interaction"
    );
    assert_eq!(Error::InvalidState.message(), "Invalid OAuth2 State");
    assert_eq!(
        Error::NoPermissions.message(),
        "You do not have the required role to access this application"
    );
    assert_eq!(Error::Unauthorized.message(), "You must authenticate to use this application");
    assert_eq!(Error::NotFound.message(), "404 Page Not Found");
    assert_eq!(Error::MissingCommandData.message(), "Discord did not send CommandData!");
    assert_eq!(Error::MissingTarget.message(), "Missing target ID");
    assert_eq!(Error::NoResolvedData.message(), "Missing discord resolved data");
    assert_eq!(Error::MessageNotFound.message(), "Message not sent in resolved data");
}

#[test]
fn messages_carry_their_detail() {
    assert_eq!(
        Error::MissingHeader("x-signature-ed25519").message(),
        "Missing required header with name x-signature-ed25519"
    );
    assert_eq!(
        Error::WebPStr("bad chunk".to_string()).message(),
        "WebP reported an unusual error: bad chunk"
    );
}
