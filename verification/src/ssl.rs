//! Building an SSL context out of a certificate and its private key.
use openssl::error::ErrorStack;
use openssl::pkey::{PKey, Private};
use openssl::ssl::{Ssl, SslContext, SslContextBuilder, SslMethod, SslVerifyMode};
use openssl::x509::X509;
use vstd::prelude::*;

verus! {

/// `openssl::ssl::SslContext`, carried as an opaque value.
#[verifier::external_type_specification]
#[verifier::external_body]
pub struct ExSslContext(SslContext);

/// `openssl::ssl::Ssl`, carried as an opaque value.
#[verifier::external_type_specification]
#[verifier::external_body]
pub struct ExSsl(Ssl);

/// `openssl::ssl::SslContextBuilder`, carried as an opaque value.
#[verifier::external_type_specification]
#[verifier::external_body]
pub struct ExSslContextBuilder(SslContextBuilder);

/// `openssl::ssl::SslMethod`, carried as an opaque value.
#[verifier::external_type_specification]
#[verifier::external_body]
pub struct ExSslMethod(SslMethod);

/// `openssl::ssl::SslVerifyMode`, carried as an opaque value.
#[verifier::external_type_specification]
#[verifier::external_body]
pub struct ExSslVerifyMode(SslVerifyMode);

/// `openssl::x509::X509`, carried as an opaque value.
#[verifier::external_type_specification]
#[verifier::external_body]
pub struct ExX509(X509);

/// `openssl::pkey::PKey`, carried as an opaque value.
#[verifier::external_type_specification]
#[verifier::external_body]
#[verifier::reject_recursive_types(T)]
pub struct ExPKey<T>(PKey<T>);

/// `openssl::pkey::Private`, which marks a private key.
#[verifier::external_type_specification]
#[verifier::external_body]
pub struct ExPrivate(Private);

/// `openssl::error::ErrorStack`, carried as an opaque value.
#[verifier::external_type_specification]
#[verifier::external_body]
pub struct ExErrorStack(ErrorStack);

/// `openssl::ssl::SslMethod::tls`: support for all versions of the TLS protocol.
pub assume_specification[ SslMethod::tls ]() -> (r: SslMethod)
;

/// `openssl::ssl::SslContext::builder`. Whether it succeeds rests on the OpenSSL library.
pub assume_specification[ SslContext::builder ](method: SslMethod) -> (r: Result<
    SslContextBuilder,
    ErrorStack,
>)
;

/// `openssl::x509::X509::from_pem` panics on an input longer than a C `int` can say; whether it
/// succeeds on another rests on the OpenSSL library.
pub assume_specification[ X509::from_pem ](pem: &[u8]) -> (r: Result<X509, ErrorStack>)
    requires
        pem@.len() <= i32::MAX,
;

/// `openssl::pkey::PKey::private_key_from_pem` panics on an input longer than a C `int` can say;
/// whether it succeeds on another rests on the OpenSSL library, which asks the terminal for the
/// pass phrase of an encrypted key.
pub assume_specification[ PKey::<Private>::private_key_from_pem ](pem: &[u8]) -> (r: Result<
    PKey<Private>,
    ErrorStack,
>)
    requires
        pem@.len() <= i32::MAX,
;

/// `openssl::ssl::SslContextBuilder::check_private_key`: whether the private key and the
/// certificate of the context belong together.
pub assume_specification[ SslContextBuilder::check_private_key ](
    builder: &SslContextBuilder,
) -> (r: Result<(), ErrorStack>)
;

/// `openssl::ssl::SslContextBuilder::build`: the context as it was configured.
pub assume_specification[ SslContextBuilder::build ](builder: SslContextBuilder) -> (r: SslContext)
;

/// The constant `openssl::ssl::SslVerifyMode::NONE`: no certificate is asked of the peer.
#[verifier::external_body]
pub(crate) fn verify_none() -> (r: SslVerifyMode) {
    SslVerifyMode::NONE
}

/// `openssl::ssl::SslContextBuilder::set_cipher_list`, which panics on a list with a NUL in it:
/// gives back the builder with the list set, or the error. Whether it succeeds rests on the
/// OpenSSL library.
#[verifier::external_body]
pub(crate) fn set_cipher_list(mut builder: SslContextBuilder, cipher_list: &str) -> (r: Result<
    SslContextBuilder,
    ErrorStack,
>)
    requires
        !cipher_list@.contains('\0'),
{
    builder.set_cipher_list(cipher_list)?;
    Ok(builder)
}

/// `openssl::ssl::SslContextBuilder::set_certificate`: gives back the builder with the certificate
/// set, or the error. Whether it succeeds rests on the OpenSSL library.
#[verifier::external_body]
pub(crate) fn set_certificate(mut builder: SslContextBuilder, certificate: &X509) -> (r: Result<
    SslContextBuilder,
    ErrorStack,
>) {
    builder.set_certificate(certificate)?;
    Ok(builder)
}

/// `openssl::ssl::SslContextBuilder::set_private_key`: gives back the builder with the key set, or
/// the error. Whether it succeeds rests on the OpenSSL library.
#[verifier::external_body]
pub(crate) fn set_private_key(mut builder: SslContextBuilder, key: &PKey<Private>) -> (r: Result<
    SslContextBuilder,
    ErrorStack,
>) {
    builder.set_private_key(key)?;
    Ok(builder)
}

/// `openssl::ssl::SslContextBuilder::set_verify`: gives back the builder with the mode set.
#[verifier::external_body]
pub(crate) fn set_verify(mut builder: SslContextBuilder, mode: SslVerifyMode) -> (r:
    SslContextBuilder) {
    builder.set_verify(mode);
    builder
}

/// `openssl::ssl::Ssl::new`: a new session within `context`, or the error. Whether it succeeds
/// rests on the OpenSSL library.
#[verifier::external_body]
pub(crate) fn new_session(context: &SslContext) -> (r: Result<Ssl, ErrorStack>) {
    Ssl::new(context)
}

/// `r` came of making a session within `context`.
pub closed spec fn new_session_gave(context: SslContext, r: Result<Ssl, ErrorStack>) -> bool {
    call_ensures(new_session, (&context,), r)
}

/// Makes a session within `context`.
pub(crate) fn make_session(context: &SslContext) -> (r: Result<Ssl, ErrorStack>)
    ensures
        new_session_gave(*context, r),
{
    new_session(context)
}

/// Configuration of the server for SSL.
#[derive(Debug, Clone)]
pub struct SslConfig {
    /// Contains the public certificate to send to clients.
    pub certificate: Vec<u8>,
    /// Contains the ultra-secret private key used to decode communications.
    pub private_key: Vec<u8>,
}

/// As many zeros.
pub open spec fn zeros(n: nat) -> Seq<u8> {
    Seq::new(n, |i: int| 0u8)
}

/// `r` came of reading a certificate from `pem`.
pub open spec fn certificate_of(pem: Seq<u8>, r: Result<X509, ErrorStack>) -> bool {
    exists|bytes: &[u8]| bytes@ == pem && #[trigger] call_ensures(X509::from_pem, (bytes,), r)
}

/// `r` came of reading a private key from `pem`.
pub open spec fn private_key_of(pem: Seq<u8>, r: Result<PKey<Private>, ErrorStack>) -> bool {
    exists|bytes: &[u8]|
        bytes@ == pem && #[trigger] call_ensures(
            PKey::<Private>::private_key_from_pem,
            (bytes,),
            r,
        )
}

/// `r` came of setting the ciphers of `builder` to `cipher_list`.
pub closed spec fn set_ciphers_gave(
    builder: SslContextBuilder,
    cipher_list: &str,
    r: Result<SslContextBuilder, ErrorStack>,
) -> bool {
    call_ensures(set_cipher_list, (builder, cipher_list), r)
}

/// `r` came of setting the certificate of `builder` to `certificate`.
pub closed spec fn set_certificate_gave(
    builder: SslContextBuilder,
    certificate: X509,
    r: Result<SslContextBuilder, ErrorStack>,
) -> bool {
    call_ensures(set_certificate, (builder, &certificate), r)
}

/// `r` came of setting the private key of `builder` to `key`.
pub closed spec fn set_private_key_gave(
    builder: SslContextBuilder,
    key: PKey<Private>,
    r: Result<SslContextBuilder, ErrorStack>,
) -> bool {
    call_ensures(set_private_key, (builder, &key), r)
}

/// `r` is `builder` told to ask no certificate of the peer.
pub closed spec fn set_verify_none_gave(builder: SslContextBuilder, r: SslContextBuilder) -> bool {
    exists|mode: SslVerifyMode|
        call_ensures(verify_none, (), mode) && #[trigger] call_ensures(
            set_verify,
            (builder, mode),
            r,
        )
}

/// What came of the calls that build a context, in the order in which they are made. Once one has
/// failed, what the later fields hold means nothing.
pub struct SslSetup {
    pub method: SslMethod,
    pub builder: Result<SslContextBuilder, ErrorStack>,
    pub with_ciphers: Result<SslContextBuilder, ErrorStack>,
    pub certificate: Result<X509, ErrorStack>,
    pub with_certificate: Result<SslContextBuilder, ErrorStack>,
    pub private_key: Result<PKey<Private>, ErrorStack>,
    pub with_private_key: Result<SslContextBuilder, ErrorStack>,
    pub with_verify: SslContextBuilder,
    pub check: Result<(), ErrorStack>,
    pub context: SslContext,
}

impl SslSetup {
    /// How many of the calls that can fail have succeeded before the first that has failed.
    pub open spec fn passed(self) -> nat {
        if self.builder is Err {
            0
        } else if self.with_ciphers is Err {
            1
        } else if self.certificate is Err {
            2
        } else if self.with_certificate is Err {
            3
        } else if self.private_key is Err {
            4
        } else if self.with_private_key is Err {
            5
        } else if self.check is Err {
            6
        } else {
            7
        }
    }

    /// These are outcomes of the calls for `config`: all versions of TLS, the default ciphers, the
    /// certificate and the key of the configuration, and no certificate asked of the peer. Each
    /// call is made on what the calls before it gave.
    pub open spec fn of(self, config: SslConfig) -> bool {
        &&& call_ensures(SslMethod::tls, (), self.method)
        &&& call_ensures(SslContext::builder, (self.method,), self.builder)
        &&& self.passed() >= 1 ==> set_ciphers_gave(
            self.builder->Ok_0,
            "DEFAULT",
            self.with_ciphers,
        )
        &&& self.passed() >= 2 ==> certificate_of(config.certificate@, self.certificate)
        &&& self.passed() >= 3 ==> set_certificate_gave(
            self.with_ciphers->Ok_0,
            self.certificate->Ok_0,
            self.with_certificate,
        )
        &&& self.passed() >= 4 ==> private_key_of(config.private_key@, self.private_key)
        &&& self.passed() >= 5 ==> set_private_key_gave(
            self.with_certificate->Ok_0,
            self.private_key->Ok_0,
            self.with_private_key,
        )
        &&& self.passed() >= 6 ==> {
            &&& set_verify_none_gave(self.with_private_key->Ok_0, self.with_verify)
            &&& call_ensures(
                SslContextBuilder::check_private_key,
                (&self.with_verify,),
                self.check,
            )
        }
        &&& self.passed() == 7 ==> call_ensures(
            SslContextBuilder::build,
            (self.with_verify,),
            self.context,
        )
    }

    /// What building the context gives: the error of the first call that fails, or the context.
    pub open spec fn outcome(self) -> Result<SslContext, ErrorStack> {
        if self.builder is Err {
            Err(self.builder->Err_0)
        } else if self.with_ciphers is Err {
            Err(self.with_ciphers->Err_0)
        } else if self.certificate is Err {
            Err(self.certificate->Err_0)
        } else if self.with_certificate is Err {
            Err(self.with_certificate->Err_0)
        } else if self.private_key is Err {
            Err(self.private_key->Err_0)
        } else if self.with_private_key is Err {
            Err(self.with_private_key->Err_0)
        } else if self.check is Err {
            Err(self.check->Err_0)
        } else {
            Ok(self.context)
        }
    }
}

/// Overwrites `bytes` with zeros.
fn wipe(bytes: &mut Vec<u8>)
    ensures
        final(bytes)@ == zeros(old(bytes)@.len()),
{
    let n: usize = bytes.len();
    let mut i: usize = 0;
    while i < n
        invariant
            i <= n == bytes@.len() == old(bytes)@.len(),
            forall|j: int| 0 <= j < i ==> bytes@[j] == 0,
        decreases n - i,
    {
        bytes.set(i, 0);
        i += 1;
    }
}

impl SslConfig {
    /// Builds the context with which the server encrypts its connections. Once that is done, the
    /// certificate and the private key are wiped from memory.
    pub fn build_context(&mut self) -> (r: Result<SslContext, ErrorStack>)
        requires
            old(self).certificate@.len() <= i32::MAX,
            old(self).private_key@.len() <= i32::MAX,
        ensures
            exists|setup: SslSetup| #[trigger] setup.of(*old(self)) && r == setup.outcome(),
            r is Err ==> *final(self) == *old(self),
            r is Ok ==> final(self).certificate@ == zeros(old(self).certificate@.len()),
            r is Ok ==> final(self).private_key@ == zeros(old(self).private_key@.len()),
    {
        let ghost mut setup: SslSetup = arbitrary();
        let method = SslMethod::tls();
        proof {
            setup = SslSetup { method, ..setup };
        }
        let builder = match SslContext::builder(method) {
            Ok(builder) => builder,
            Err(e) => {
                assert(SslSetup { builder: Err(e), ..setup }.of(*self));
                return Err(e);
            },
        };
        proof {
            setup = SslSetup { builder: Ok(builder), ..setup };
            reveal_strlit("DEFAULT");
        }
        let builder = match set_cipher_list(builder, "DEFAULT") {
            Ok(builder) => builder,
            Err(e) => {
                assert(SslSetup { with_ciphers: Err(e), ..setup }.of(*self));
                return Err(e);
            },
        };
        proof {
            setup = SslSetup { with_ciphers: Ok(builder), ..setup };
        }
        let certificate = match X509::from_pem(self.certificate.as_slice()) {
            Ok(certificate) => certificate,
            Err(e) => {
                assert(SslSetup { certificate: Err(e), ..setup }.of(*self));
                return Err(e);
            },
        };
        proof {
            setup = SslSetup { certificate: Ok(certificate), ..setup };
        }
        let builder = match set_certificate(builder, &certificate) {
            Ok(builder) => builder,
            Err(e) => {
                assert(SslSetup { with_certificate: Err(e), ..setup }.of(*self));
                return Err(e);
            },
        };
        proof {
            setup = SslSetup { with_certificate: Ok(builder), ..setup };
        }
        let private_key = match PKey::<Private>::private_key_from_pem(self.private_key.as_slice()) {
            Ok(private_key) => private_key,
            Err(e) => {
                assert(SslSetup { private_key: Err(e), ..setup }.of(*self));
                return Err(e);
            },
        };
        proof {
            setup = SslSetup { private_key: Ok(private_key), ..setup };
        }
        let builder = match set_private_key(builder, &private_key) {
            Ok(builder) => builder,
            Err(e) => {
                assert(SslSetup { with_private_key: Err(e), ..setup }.of(*self));
                return Err(e);
            },
        };
        proof {
            setup = SslSetup { with_private_key: Ok(builder), ..setup };
        }
        let mode = verify_none();
        let builder = set_verify(builder, mode);
        proof {
            setup = SslSetup { with_verify: builder, ..setup };
        }
        let check = builder.check_private_key();
        proof {
            setup = SslSetup { check, ..setup };
        }
        if let Err(e) = check {
            assert(setup.of(*self));
            return Err(e);
        }
        wipe(&mut self.certificate);
        wipe(&mut self.private_key);
        let context = builder.build();
        assert(SslSetup { context, ..setup }.of(*old(self)));
        Ok(context)
    }
}

/// What is said to have come of configuring a builder and of making a session came of the calls of
/// the outside functions that do so, on just these arguments.
pub(crate) proof fn law_each_outcome_is_that_of_the_call(
    builder: SslContextBuilder,
    cipher_list: &str,
    certificate: X509,
    key: PKey<Private>,
    context: SslContext,
    configured: Result<SslContextBuilder, ErrorStack>,
    unverified: SslContextBuilder,
    session: Result<Ssl, ErrorStack>,
)
    ensures
        set_ciphers_gave(builder, cipher_list, configured) ==> call_ensures(
            set_cipher_list,
            (builder, cipher_list),
            configured,
        ),
        set_certificate_gave(builder, certificate, configured) ==> call_ensures(
            set_certificate,
            (builder, &certificate),
            configured,
        ),
        set_private_key_gave(builder, key, configured) ==> call_ensures(
            set_private_key,
            (builder, &key),
            configured,
        ),
        set_verify_none_gave(builder, unverified) ==> exists|mode: SslVerifyMode| #[trigger]
            call_ensures(set_verify, (builder, mode), unverified) && call_ensures(
                verify_none,
                (),
                mode,
            ),
        new_session_gave(context, session) ==> call_ensures(new_session, (&context,), session),
{
}

/// A context is built only of the configuration: a builder for all versions of TLS gets the default
/// ciphers, then the certificate that was read from the bytes of the certificate, then the private
/// key that was read from the bytes of the private key, then it asks no certificate of the peer;
/// the key and the certificate were found to belong together, and the context is what was built of
/// just that.
pub proof fn law_a_context_is_built_of_the_configuration(config: SslConfig, setup: SslSetup)
    requires
        setup.of(config),
        setup.outcome() is Ok,
    ensures
        call_ensures(SslMethod::tls, (), setup.method),
        setup.builder is Ok,
        call_ensures(SslContext::builder, (setup.method,), setup.builder),
        setup.with_ciphers is Ok,
        set_ciphers_gave(setup.builder->Ok_0, "DEFAULT", setup.with_ciphers),
        setup.certificate is Ok,
        exists|bytes: &[u8]|
            bytes@ == config.certificate@ && #[trigger] call_ensures(
                X509::from_pem,
                (bytes,),
                setup.certificate,
            ),
        setup.with_certificate is Ok,
        set_certificate_gave(
            setup.with_ciphers->Ok_0,
            setup.certificate->Ok_0,
            setup.with_certificate,
        ),
        setup.private_key is Ok,
        exists|bytes: &[u8]|
            bytes@ == config.private_key@ && #[trigger] call_ensures(
                PKey::<Private>::private_key_from_pem,
                (bytes,),
                setup.private_key,
            ),
        setup.with_private_key is Ok,
        set_private_key_gave(
            setup.with_certificate->Ok_0,
            setup.private_key->Ok_0,
            setup.with_private_key,
        ),
        set_verify_none_gave(setup.with_private_key->Ok_0, setup.with_verify),
        setup.check is Ok,
        call_ensures(SslContextBuilder::check_private_key, (&setup.with_verify,), setup.check),
        call_ensures(SslContextBuilder::build, (setup.with_verify,), setup.context),
        setup.outcome() == Ok::<SslContext, ErrorStack>(setup.context),
{
}

/// Building a context fails only if one of the calls that it takes has failed, and then with the
/// error of the first that has: every call before it has succeeded, and that call was made on what
/// those gave.
pub proof fn law_a_context_fails_with_the_first_error(
    config: SslConfig,
    setup: SslSetup,
    e: ErrorStack,
)
    requires
        setup.of(config),
        setup.outcome() == Err::<SslContext, ErrorStack>(e),
    ensures
        ({
            ||| setup.builder == Err::<SslContextBuilder, ErrorStack>(e) && call_ensures(
                SslContext::builder,
                (setup.method,),
                setup.builder,
            )
            ||| setup.builder is Ok && {
                ||| setup.with_ciphers == Err::<SslContextBuilder, ErrorStack>(e)
                    && set_ciphers_gave(setup.builder->Ok_0, "DEFAULT", setup.with_ciphers)
                ||| setup.with_ciphers is Ok && {
                    ||| setup.certificate == Err::<X509, ErrorStack>(e) && exists|bytes: &[u8]|
                        bytes@ == config.certificate@ && #[trigger] call_ensures(
                            X509::from_pem,
                            (bytes,),
                            setup.certificate,
                        )
                    ||| setup.certificate is Ok && {
                        ||| setup.with_certificate == Err::<SslContextBuilder, ErrorStack>(e)
                            && set_certificate_gave(
                            setup.with_ciphers->Ok_0,
                            setup.certificate->Ok_0,
                            setup.with_certificate,
                        )
                        ||| setup.with_certificate is Ok && {
                            ||| setup.private_key == Err::<PKey<Private>, ErrorStack>(e)
                                && exists|bytes: &[u8]|
                                bytes@ == config.private_key@ && #[trigger] call_ensures(
                                    PKey::<Private>::private_key_from_pem,
                                    (bytes,),
                                    setup.private_key,
                                )
                            ||| setup.private_key is Ok && {
                                ||| setup.with_private_key == Err::<
                                    SslContextBuilder,
                                    ErrorStack,
                                >(e) && set_private_key_gave(
                                    setup.with_certificate->Ok_0,
                                    setup.private_key->Ok_0,
                                    setup.with_private_key,
                                )
                                ||| setup.with_private_key is Ok && setup.check == Err::<
                                    (),
                                    ErrorStack,
                                >(e) && set_verify_none_gave(
                                    setup.with_private_key->Ok_0,
                                    setup.with_verify,
                                ) && call_ensures(
                                    SslContextBuilder::check_private_key,
                                    (&setup.with_verify,),
                                    setup.check,
                                )
                            }
                        }
                    }
                }
            }
        }),
{
}

/// Building a context gives what came of its calls. On success no byte of the certificate and of
/// the private key is left; on failure nothing was wiped.
pub proof fn law_secrets_are_wiped_on_success(
    config: &mut SslConfig,
    r: Result<SslContext, ErrorStack>,
)
    requires
        call_ensures(SslConfig::build_context, (config,), r),
    ensures
        exists|setup: SslSetup| #[trigger] setup.of(*old(config)) && setup.outcome() == r,
        final(config).certificate@.len() == old(config).certificate@.len(),
        final(config).private_key@.len() == old(config).private_key@.len(),
        r is Ok ==> forall|i: int|
            0 <= i < old(config).certificate@.len() ==> final(config).certificate@[i] == 0,
        r is Ok ==> forall|i: int|
            0 <= i < old(config).private_key@.len() ==> final(config).private_key@[i] == 0,
        r is Err ==> final(config).certificate@ == old(config).certificate@,
        r is Err ==> final(config).private_key@ == old(config).private_key@,
{
}

} // verus!
