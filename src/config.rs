use vstd::prelude::*;
use crate::error::UnifiedRagError;
use crate::keys::opt_seq;
use crate::text::{bounded_decimal_of, parse_u16};

verus! {

#[derive(Clone, Debug)]
pub struct RedisConfig {
    pub host: String,
    pub port: u16,
    pub password: Option<String>,
    pub pool_size: usize,
}

#[derive(Clone, Debug)]
pub struct QdrantConfig {
    pub host: String,
    pub port: u16,
    pub collection_name: String,
}

#[derive(Clone, Debug)]
pub struct OpenAIConfig {
    pub api_key: String,
    pub model: String,
}

/// Settings of the whole service.
#[derive(Clone, Debug)]
pub struct Config {
    pub redis: RedisConfig,
    pub qdrant: QdrantConfig,
    pub openai: OpenAIConfig,
    pub instance_id: String,
    pub cache_ttl_seconds: u64,
    pub max_results: usize,
    /// Bit pattern of an f32.
    pub similarity_threshold: u32,
}

/// The raw values of the settings that the environment may supply; `None` where a variable is unset.
pub struct EnvSettings {
    pub redis_host: Option<String>,
    pub redis_port: Option<String>,
    pub redis_password: Option<String>,
    pub qdrant_host: Option<String>,
    pub qdrant_port: Option<String>,
    pub qdrant_collection: Option<String>,
    pub openai_api_key: Option<String>,
    pub instance_id: Option<String>,
}

pub const DEFAULT_REDIS_PORT: u16 = 6379;

pub const DEFAULT_QDRANT_PORT: u16 = 6333;

pub const REDIS_POOL_SIZE: usize = 10;

pub const DEFAULT_CACHE_TTL_SECONDS: u64 = 3600;

/// Bit pattern of the f32 `0.7`.
pub const DEFAULT_THRESHOLD_BITS: u32 = 0x3f33_3333;

pub open spec fn text_or(o: Option<String>, d: Seq<char>) -> Seq<char> {
    match o {
        Some(s) => s@,
        None => d,
    }
}

/// A port given as text, or `d` when it is absent or not a 16-bit number.
pub open spec fn port_or(o: Option<String>, d: u16) -> u16 {
    match o {
        Some(s) => match bounded_decimal_of(s@, u16::MAX as nat) {
            Some(v) => v as u16,
            None => d,
        },
        None => d,
    }
}

fn string_or(o: Option<String>, d: &str) -> (r: String)
    ensures
        r@ == text_or(o, d@),
{
    match o {
        Some(s) => s,
        None => String::from_str(d),
    }
}

fn port_from(o: Option<String>, d: u16) -> (r: u16)
    ensures
        r == port_or(o, d),
{
    match o {
        Some(s) => match parse_u16(s.as_str()) {
            Some(v) => v,
            None => d,
        },
        None => d,
    }
}

impl Config {
    /// The configuration with each unset value replaced by its default. Fails only
    /// when no API key for the embedding provider is given.
    pub fn from_settings(e: EnvSettings) -> (r: Result<Config, UnifiedRagError>)
        ensures
            e.openai_api_key is None <==> r is Err,
            r matches Err(err) ==> err is Configuration,
            r matches Ok(c) ==> {
                &&& c.redis.host@ == text_or(e.redis_host, "127.0.0.1"@)
                &&& c.redis.port == port_or(e.redis_port, DEFAULT_REDIS_PORT)
                &&& opt_seq(c.redis.password) == opt_seq(e.redis_password)
                &&& c.redis.pool_size == REDIS_POOL_SIZE
                &&& c.qdrant.host@ == text_or(e.qdrant_host, "127.0.0.1"@)
                &&& c.qdrant.port == port_or(e.qdrant_port, DEFAULT_QDRANT_PORT)
                &&& c.qdrant.collection_name@ == text_or(e.qdrant_collection, "unified_rag"@)
                &&& c.openai.api_key@ == e.openai_api_key->0@
                &&& c.openai.model@ == "text-embedding-3-small"@
                &&& c.instance_id@ == text_or(e.instance_id, "CC"@)
                &&& c.cache_ttl_seconds == DEFAULT_CACHE_TTL_SECONDS
                &&& c.max_results == crate::models::DEFAULT_LIMIT
                &&& c.similarity_threshold == DEFAULT_THRESHOLD_BITS
            },
    {
        let api_key = match e.openai_api_key {
            Some(k) => k,
            None => {
                return Err(UnifiedRagError::Configuration(String::from_str("OPENAI_API_KEY not set")));
            },
        };
        Ok(Config {
            redis: RedisConfig {
                host: string_or(e.redis_host, "127.0.0.1"),
                port: port_from(e.redis_port, DEFAULT_REDIS_PORT),
                password: e.redis_password,
                pool_size: REDIS_POOL_SIZE,
            },
            qdrant: QdrantConfig {
                host: string_or(e.qdrant_host, "127.0.0.1"),
                port: port_from(e.qdrant_port, DEFAULT_QDRANT_PORT),
                collection_name: string_or(e.qdrant_collection, "unified_rag"),
            },
            openai: OpenAIConfig { api_key, model: String::from_str("text-embedding-3-small") },
            instance_id: string_or(e.instance_id, "CC"),
            cache_ttl_seconds: DEFAULT_CACHE_TTL_SECONDS,
            max_results: crate::models::DEFAULT_LIMIT,
            similarity_threshold: DEFAULT_THRESHOLD_BITS,
        })
    }
}

} // verus!
