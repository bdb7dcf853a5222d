//! User settings: the categories with their defaults, the list of setting
//! names, and how a saved value is typed.
use vstd::prelude::*;

use crate::text::{parse_i64, parse_i64_spec, push_signed_decimal, signed_decimal_spec, str_eq};

verus! {

/// Look of the interface.
#[derive(Debug, Clone)]
pub struct AppearanceSettings {
    pub theme: String,
    pub language: String,
    pub font_size: String,
    pub compact_mode: i32,
    pub message_bubble_style: String,
}

/// Whether every field of the category holds its default.
pub open spec fn appearance_is_default(s: AppearanceSettings) -> bool {
    &&& s.theme@ == "dark"@
    &&& s.language@ == "fr"@
    &&& s.font_size@ == "medium"@
    &&& s.compact_mode == 0
    &&& s.message_bubble_style@ == "rounded"@
}

impl Default for AppearanceSettings {
    /// The defaults of the category.
    fn default() -> (r: Self)
        ensures
            appearance_is_default(r),
    {
        AppearanceSettings {
            theme: "dark".to_owned(),
            language: "fr".to_owned(),
            font_size: "medium".to_owned(),
            compact_mode: 0,
            message_bubble_style: "rounded".to_owned(),
        }
    }
}

/// Key rotation and algorithms.
#[derive(Debug, Clone)]
pub struct CryptographySettings {
    pub key_rotation_enabled: i32,
    pub key_rotation_days: i32,
    pub use_post_quantum: i32,
    pub signature_algorithm: String,
    pub kem_algorithm: String,
}

/// Whether every field of the category holds its default.
pub open spec fn cryptography_is_default(s: CryptographySettings) -> bool {
    &&& s.key_rotation_enabled == 1
    &&& s.key_rotation_days == 30
    &&& s.use_post_quantum == 1
    &&& s.signature_algorithm@ == "dilithium2"@
    &&& s.kem_algorithm@ == "kyber1024"@
}

impl Default for CryptographySettings {
    /// The defaults of the category.
    fn default() -> (r: Self)
        ensures
            cryptography_is_default(r),
    {
        CryptographySettings {
            key_rotation_enabled: 1,
            key_rotation_days: 30,
            use_post_quantum: 1,
            signature_algorithm: "dilithium2".to_owned(),
            kem_algorithm: "kyber1024".to_owned(),
        }
    }
}

/// Double Ratchet behaviour.
#[derive(Debug, Clone)]
pub struct ForwardSecrecySettings {
    pub double_ratchet_enabled: i32,
    pub max_skip_message_keys: i32,
    pub ratchet_on_every_message: i32,
}

/// Whether every field of the category holds its default.
pub open spec fn forward_secrecy_is_default(s: ForwardSecrecySettings) -> bool {
    &&& s.double_ratchet_enabled == 1
    &&& s.max_skip_message_keys == 1000
    &&& s.ratchet_on_every_message == 0
}

impl Default for ForwardSecrecySettings {
    /// The defaults of the category.
    fn default() -> (r: Self)
        ensures
            forward_secrecy_is_default(r),
    {
        ForwardSecrecySettings {
            double_ratchet_enabled: 1,
            max_skip_message_keys: 1000,
            ratchet_on_every_message: 0,
        }
    }
}

/// Disappearing messages.
#[derive(Debug, Clone)]
pub struct EphemeralSettings {
    pub ephemeral_messages_default: i32,
    pub default_ephemeral_timer: i32,
    pub ephemeral_after_read: i32,
}

/// Whether every field of the category holds its default.
pub open spec fn ephemeral_is_default(s: EphemeralSettings) -> bool {
    &&& s.ephemeral_messages_default == 0
    &&& s.default_ephemeral_timer == 86400
    &&& s.ephemeral_after_read == 0
}

impl Default for EphemeralSettings {
    /// The defaults of the category.
    fn default() -> (r: Self)
        ensures
            ephemeral_is_default(r),
    {
        EphemeralSettings {
            ephemeral_messages_default: 0,
            default_ephemeral_timer: 86400,
            ephemeral_after_read: 0,
        }
    }
}

/// Metadata protection.
#[derive(Debug, Clone)]
pub struct MetadataSettings {
    pub enable_message_padding: i32,
    pub padding_size: i32,
    pub random_delay_messages: i32,
    pub max_delay_seconds: i32,
    pub hide_message_size: i32,
}

/// Whether every field of the category holds its default.
pub open spec fn metadata_is_default(s: MetadataSettings) -> bool {
    &&& s.enable_message_padding == 1
    &&& s.padding_size == 256
    &&& s.random_delay_messages == 0
    &&& s.max_delay_seconds == 5
    &&& s.hide_message_size == 1
}

impl Default for MetadataSettings {
    /// The defaults of the category.
    fn default() -> (r: Self)
        ensures
            metadata_is_default(r),
    {
        MetadataSettings {
            enable_message_padding: 1,
            padding_size: 256,
            random_delay_messages: 0,
            max_delay_seconds: 5,
            hide_message_size: 1,
        }
    }
}

/// Relays and onion routing.
#[derive(Debug, Clone)]
pub struct NetworkSettings {
    pub default_relay: String,
    pub use_multiple_relays: i32,
    pub relay_circuit_length: i32,
    pub auto_change_circuit: i32,
    pub circuit_change_minutes: i32,
    pub force_onion_routing: i32,
    pub use_guards_nodes: i32,
}

/// Whether every field of the category holds its default.
pub open spec fn network_is_default(s: NetworkSettings) -> bool {
    &&& s.default_relay@ == "tor"@
    &&& s.use_multiple_relays == 0
    &&& s.relay_circuit_length == 3
    &&& s.auto_change_circuit == 1
    &&& s.circuit_change_minutes == 10
    &&& s.force_onion_routing == 1
    &&& s.use_guards_nodes == 1
}

impl Default for NetworkSettings {
    /// The defaults of the category.
    fn default() -> (r: Self)
        ensures
            network_is_default(r),
    {
        NetworkSettings {
            default_relay: "tor".to_owned(),
            use_multiple_relays: 0,
            relay_circuit_length: 3,
            auto_change_circuit: 1,
            circuit_change_minutes: 10,
            force_onion_routing: 1,
            use_guards_nodes: 1,
        }
    }
}

/// Locking and wiping.
#[derive(Debug, Clone)]
pub struct SecuritySettings {
    pub auto_lock_enabled: i32,
    pub auto_lock_timeout: i32,
    pub wipe_after_failed_attempts: i32,
    pub max_failed_attempts: i32,
    pub secure_delete_messages: i32,
}

/// Whether every field of the category holds its default.
pub open spec fn security_is_default(s: SecuritySettings) -> bool {
    &&& s.auto_lock_enabled == 1
    &&& s.auto_lock_timeout == 5
    &&& s.wipe_after_failed_attempts == 0
    &&& s.max_failed_attempts == 10
    &&& s.secure_delete_messages == 1
}

impl Default for SecuritySettings {
    /// The defaults of the category.
    fn default() -> (r: Self)
        ensures
            security_is_default(r),
    {
        SecuritySettings {
            auto_lock_enabled: 1,
            auto_lock_timeout: 5,
            wipe_after_failed_attempts: 0,
            max_failed_attempts: 10,
            secure_delete_messages: 1,
        }
    }
}

/// Identity verification.
#[derive(Debug, Clone)]
pub struct IdentitySettings {
    pub require_safety_numbers: i32,
    pub warn_identity_change: i32,
    pub auto_accept_new_keys: i32,
    pub verify_all_devices: i32,
}

/// Whether every field of the category holds its default.
pub open spec fn identity_is_default(s: IdentitySettings) -> bool {
    &&& s.require_safety_numbers == 1
    &&& s.warn_identity_change == 1
    &&& s.auto_accept_new_keys == 0
    &&& s.verify_all_devices == 1
}

impl Default for IdentitySettings {
    /// The defaults of the category.
    fn default() -> (r: Self)
        ensures
            identity_is_default(r),
    {
        IdentitySettings {
            require_safety_numbers: 1,
            warn_identity_change: 1,
            auto_accept_new_keys: 0,
            verify_all_devices: 1,
        }
    }
}

/// Linked devices.
#[derive(Debug, Clone)]
pub struct MultiDeviceSettings {
    pub allow_multi_device: i32,
    pub max_linked_devices: i32,
    pub sync_read_receipts: i32,
    pub sync_contacts: i32,
}

/// Whether every field of the category holds its default.
pub open spec fn multidevice_is_default(s: MultiDeviceSettings) -> bool {
    &&& s.allow_multi_device == 0
    &&& s.max_linked_devices == 5
    &&& s.sync_read_receipts == 0
    &&& s.sync_contacts == 1
}

impl Default for MultiDeviceSettings {
    /// The defaults of the category.
    fn default() -> (r: Self)
        ensures
            multidevice_is_default(r),
    {
        MultiDeviceSettings {
            allow_multi_device: 0,
            max_linked_devices: 5,
            sync_read_receipts: 0,
            sync_contacts: 1,
        }
    }
}

/// Files and clean-up.
#[derive(Debug, Clone)]
pub struct StorageSettings {
    pub auto_download_files: i32,
    pub max_file_size_mb: i32,
    pub compress_images: i32,
    pub compress_quality: i32,
    pub auto_cleanup_old_messages: i32,
    pub cleanup_after_days: i32,
}

/// Whether every field of the category holds its default.
pub open spec fn storage_is_default(s: StorageSettings) -> bool {
    &&& s.auto_download_files == 0
    &&& s.max_file_size_mb == 50
    &&& s.compress_images == 1
    &&& s.compress_quality == 85
    &&& s.auto_cleanup_old_messages == 0
    &&& s.cleanup_after_days == 90
}

impl Default for StorageSettings {
    /// The defaults of the category.
    fn default() -> (r: Self)
        ensures
            storage_is_default(r),
    {
        StorageSettings {
            auto_download_files: 0,
            max_file_size_mb: 50,
            compress_images: 1,
            compress_quality: 85,
            auto_cleanup_old_messages: 0,
            cleanup_after_days: 90,
        }
    }
}

/// Notifications.
#[derive(Debug, Clone)]
pub struct NotificationSettings {
    pub notifications_enabled: i32,
    pub notification_sound: i32,
    pub notification_preview: i32,
    pub notify_mentions_only: i32,
}

/// Whether every field of the category holds its default.
pub open spec fn notifications_is_default(s: NotificationSettings) -> bool {
    &&& s.notifications_enabled == 1
    &&& s.notification_sound == 1
    &&& s.notification_preview == 0
    &&& s.notify_mentions_only == 0
}

impl Default for NotificationSettings {
    /// The defaults of the category.
    fn default() -> (r: Self)
        ensures
            notifications_is_default(r),
    {
        NotificationSettings {
            notifications_enabled: 1,
            notification_sound: 1,
            notification_preview: 0,
            notify_mentions_only: 0,
        }
    }
}

/// Backups.
#[derive(Debug, Clone)]
pub struct BackupSettings {
    pub encrypted_backup_enabled: i32,
    pub backup_frequency: String,
    pub backup_location: String,
    pub include_media_in_backup: i32,
}

/// Whether every field of the category holds its default.
pub open spec fn backup_is_default(s: BackupSettings) -> bool {
    &&& s.encrypted_backup_enabled == 0
    &&& s.backup_frequency@ == "weekly"@
    &&& s.backup_location@ == "local"@
    &&& s.include_media_in_backup == 0
}

impl Default for BackupSettings {
    /// The defaults of the category.
    fn default() -> (r: Self)
        ensures
            backup_is_default(r),
    {
        BackupSettings {
            encrypted_backup_enabled: 0,
            backup_frequency: "weekly".to_owned(),
            backup_location: "local".to_owned(),
            include_media_in_backup: 0,
        }
    }
}

/// Connection tuning.
#[derive(Debug, Clone)]
pub struct ConnectionSettings {
    pub connection_timeout_seconds: i32,
    pub max_retry_attempts: i32,
    pub use_websocket_compression: i32,
    pub keepalive_interval_seconds: i32,
}

/// Whether every field of the category holds its default.
pub open spec fn connection_is_default(s: ConnectionSettings) -> bool {
    &&& s.connection_timeout_seconds == 30
    &&& s.max_retry_attempts == 3
    &&& s.use_websocket_compression == 1
    &&& s.keepalive_interval_seconds == 60
}

impl Default for ConnectionSettings {
    /// The defaults of the category.
    fn default() -> (r: Self)
        ensures
            connection_is_default(r),
    {
        ConnectionSettings {
            connection_timeout_seconds: 30,
            max_retry_attempts: 3,
            use_websocket_compression: 1,
            keepalive_interval_seconds: 60,
        }
    }
}

/// Experimental features.
#[derive(Debug, Clone)]
pub struct ExperimentalSettings {
    pub use_obfuscation: i32,
    pub quantum_resistant_mode: i32,
    pub paranoid_mode: i32,
}

/// Whether every field of the category holds its default.
pub open spec fn experimental_is_default(s: ExperimentalSettings) -> bool {
    &&& s.use_obfuscation == 0
    &&& s.quantum_resistant_mode == 1
    &&& s.paranoid_mode == 0
}

impl Default for ExperimentalSettings {
    /// The defaults of the category.
    fn default() -> (r: Self)
        ensures
            experimental_is_default(r),
    {
        ExperimentalSettings {
            use_obfuscation: 0,
            quantum_resistant_mode: 1,
            paranoid_mode: 0,
        }
    }
}

/// All settings, one field per category.
#[derive(Debug, Clone)]
pub struct AppSettings {
    pub appearance: AppearanceSettings,
    pub cryptography: CryptographySettings,
    pub forward_secrecy: ForwardSecrecySettings,
    pub ephemeral: EphemeralSettings,
    pub metadata: MetadataSettings,
    pub network: NetworkSettings,
    pub security: SecuritySettings,
    pub identity: IdentitySettings,
    pub multidevice: MultiDeviceSettings,
    pub storage: StorageSettings,
    pub notifications: NotificationSettings,
    pub backup: BackupSettings,
    pub connection: ConnectionSettings,
    pub experimental: ExperimentalSettings,
}

impl Default for AppSettings {
    /// Every category at its defaults.
    fn default() -> (r: Self)
        ensures
            appearance_is_default(r.appearance),
            cryptography_is_default(r.cryptography),
            forward_secrecy_is_default(r.forward_secrecy),
            ephemeral_is_default(r.ephemeral),
            metadata_is_default(r.metadata),
            network_is_default(r.network),
            security_is_default(r.security),
            identity_is_default(r.identity),
            multidevice_is_default(r.multidevice),
            storage_is_default(r.storage),
            notifications_is_default(r.notifications),
            backup_is_default(r.backup),
            connection_is_default(r.connection),
            experimental_is_default(r.experimental),
    {
        AppSettings {
            appearance: AppearanceSettings::default(),
            cryptography: CryptographySettings::default(),
            forward_secrecy: ForwardSecrecySettings::default(),
            ephemeral: EphemeralSettings::default(),
            metadata: MetadataSettings::default(),
            network: NetworkSettings::default(),
            security: SecuritySettings::default(),
            identity: IdentitySettings::default(),
            multidevice: MultiDeviceSettings::default(),
            storage: StorageSettings::default(),
            notifications: NotificationSettings::default(),
            backup: BackupSettings::default(),
            connection: ConnectionSettings::default(),
            experimental: ExperimentalSettings::default(),
        }
    }
}

/// The names of all settings, category by category.
pub open spec fn field_names_spec() -> Seq<Seq<char>> {
    seq![
        "theme"@,
        "language"@,
        "font_size"@,
        "compact_mode"@,
        "message_bubble_style"@,
        "key_rotation_enabled"@,
        "key_rotation_days"@,
        "use_post_quantum"@,
        "signature_algorithm"@,
        "kem_algorithm"@,
        "double_ratchet_enabled"@,
        "max_skip_message_keys"@,
        "ratchet_on_every_message"@,
        "ephemeral_messages_default"@,
        "default_ephemeral_timer"@,
        "ephemeral_after_read"@,
        "enable_message_padding"@,
        "padding_size"@,
        "random_delay_messages"@,
        "max_delay_seconds"@,
        "hide_message_size"@,
        "default_relay"@,
        "use_multiple_relays"@,
        "relay_circuit_length"@,
        "auto_change_circuit"@,
        "circuit_change_minutes"@,
        "force_onion_routing"@,
        "use_guards_nodes"@,
        "auto_lock_enabled"@,
        "auto_lock_timeout"@,
        "wipe_after_failed_attempts"@,
        "max_failed_attempts"@,
        "secure_delete_messages"@,
        "require_safety_numbers"@,
        "warn_identity_change"@,
        "auto_accept_new_keys"@,
        "verify_all_devices"@,
        "allow_multi_device"@,
        "max_linked_devices"@,
        "sync_read_receipts"@,
        "sync_contacts"@,
        "auto_download_files"@,
        "max_file_size_mb"@,
        "compress_images"@,
        "compress_quality"@,
        "auto_cleanup_old_messages"@,
        "cleanup_after_days"@,
        "notifications_enabled"@,
        "notification_sound"@,
        "notification_preview"@,
        "notify_mentions_only"@,
        "encrypted_backup_enabled"@,
        "backup_frequency"@,
        "backup_location"@,
        "include_media_in_backup"@,
        "connection_timeout_seconds"@,
        "max_retry_attempts"@,
        "use_websocket_compression"@,
        "keepalive_interval_seconds"@,
        "use_obfuscation"@,
        "quantum_resistant_mode"@,
        "paranoid_mode"@,
    ]
}

/// The position of a name in the list of field names (62 when absent).
spec fn field_position(n: Seq<char>) -> int {
    if n == "theme"@ {
        0
    } else if n == "language"@ {
        1
    } else if n == "font_size"@ {
        2
    } else if n == "compact_mode"@ {
        3
    } else if n == "message_bubble_style"@ {
        4
    } else if n == "key_rotation_enabled"@ {
        5
    } else if n == "key_rotation_days"@ {
        6
    } else if n == "use_post_quantum"@ {
        7
    } else if n == "signature_algorithm"@ {
        8
    } else if n == "kem_algorithm"@ {
        9
    } else if n == "double_ratchet_enabled"@ {
        10
    } else if n == "max_skip_message_keys"@ {
        11
    } else if n == "ratchet_on_every_message"@ {
        12
    } else if n == "ephemeral_messages_default"@ {
        13
    } else if n == "default_ephemeral_timer"@ {
        14
    } else if n == "ephemeral_after_read"@ {
        15
    } else if n == "enable_message_padding"@ {
        16
    } else if n == "padding_size"@ {
        17
    } else if n == "random_delay_messages"@ {
        18
    } else if n == "max_delay_seconds"@ {
        19
    } else if n == "hide_message_size"@ {
        20
    } else if n == "default_relay"@ {
        21
    } else if n == "use_multiple_relays"@ {
        22
    } else if n == "relay_circuit_length"@ {
        23
    } else if n == "auto_change_circuit"@ {
        24
    } else if n == "circuit_change_minutes"@ {
        25
    } else if n == "force_onion_routing"@ {
        26
    } else if n == "use_guards_nodes"@ {
        27
    } else if n == "auto_lock_enabled"@ {
        28
    } else if n == "auto_lock_timeout"@ {
        29
    } else if n == "wipe_after_failed_attempts"@ {
        30
    } else if n == "max_failed_attempts"@ {
        31
    } else if n == "secure_delete_messages"@ {
        32
    } else if n == "require_safety_numbers"@ {
        33
    } else if n == "warn_identity_change"@ {
        34
    } else if n == "auto_accept_new_keys"@ {
        35
    } else if n == "verify_all_devices"@ {
        36
    } else if n == "allow_multi_device"@ {
        37
    } else if n == "max_linked_devices"@ {
        38
    } else if n == "sync_read_receipts"@ {
        39
    } else if n == "sync_contacts"@ {
        40
    } else if n == "auto_download_files"@ {
        41
    } else if n == "max_file_size_mb"@ {
        42
    } else if n == "compress_images"@ {
        43
    } else if n == "compress_quality"@ {
        44
    } else if n == "auto_cleanup_old_messages"@ {
        45
    } else if n == "cleanup_after_days"@ {
        46
    } else if n == "notifications_enabled"@ {
        47
    } else if n == "notification_sound"@ {
        48
    } else if n == "notification_preview"@ {
        49
    } else if n == "notify_mentions_only"@ {
        50
    } else if n == "encrypted_backup_enabled"@ {
        51
    } else if n == "backup_frequency"@ {
        52
    } else if n == "backup_location"@ {
        53
    } else if n == "include_media_in_backup"@ {
        54
    } else if n == "connection_timeout_seconds"@ {
        55
    } else if n == "max_retry_attempts"@ {
        56
    } else if n == "use_websocket_compression"@ {
        57
    } else if n == "keepalive_interval_seconds"@ {
        58
    } else if n == "use_obfuscation"@ {
        59
    } else if n == "quantum_resistant_mode"@ {
        60
    } else if n == "paranoid_mode"@ {
        61
    } else {
        62
    }
}

/// The field names are 62 distinct names.
#[verifier::rlimit(100)]
proof fn lemma_field_names_distinct()
    ensures
        field_names_spec().len() == 62,
        field_names_spec().no_duplicates(),
{
    reveal_strlit("theme");
    assert("theme"@.len() == 5);
    reveal_strlit("language");
    assert("language"@.len() == 8);
    reveal_strlit("font_size");
    assert("font_size"@.len() == 9);
    reveal_strlit("compact_mode");
    assert("compact_mode"@.len() == 12);
    reveal_strlit("message_bubble_style");
    assert("message_bubble_style"@.len() == 20);
    reveal_strlit("key_rotation_enabled");
    assert("key_rotation_enabled"@.len() == 20);
    reveal_strlit("key_rotation_days");
    assert("key_rotation_days"@.len() == 17);
    reveal_strlit("use_post_quantum");
    assert("use_post_quantum"@.len() == 16);
    reveal_strlit("signature_algorithm");
    assert("signature_algorithm"@.len() == 19);
    reveal_strlit("kem_algorithm");
    assert("kem_algorithm"@.len() == 13);
    reveal_strlit("double_ratchet_enabled");
    assert("double_ratchet_enabled"@.len() == 22);
    reveal_strlit("max_skip_message_keys");
    assert("max_skip_message_keys"@.len() == 21);
    reveal_strlit("ratchet_on_every_message");
    assert("ratchet_on_every_message"@.len() == 24);
    reveal_strlit("ephemeral_messages_default");
    assert("ephemeral_messages_default"@.len() == 26);
    reveal_strlit("default_ephemeral_timer");
    assert("default_ephemeral_timer"@.len() == 23);
    reveal_strlit("ephemeral_after_read");
    assert("ephemeral_after_read"@.len() == 20);
    reveal_strlit("enable_message_padding");
    assert("enable_message_padding"@.len() == 22);
    reveal_strlit("padding_size");
    assert("padding_size"@.len() == 12);
    reveal_strlit("random_delay_messages");
    assert("random_delay_messages"@.len() == 21);
    reveal_strlit("max_delay_seconds");
    assert("max_delay_seconds"@.len() == 17);
    reveal_strlit("hide_message_size");
    assert("hide_message_size"@.len() == 17);
    reveal_strlit("default_relay");
    assert("default_relay"@.len() == 13);
    reveal_strlit("use_multiple_relays");
    assert("use_multiple_relays"@.len() == 19);
    reveal_strlit("relay_circuit_length");
    assert("relay_circuit_length"@.len() == 20);
    reveal_strlit("auto_change_circuit");
    assert("auto_change_circuit"@.len() == 19);
    reveal_strlit("circuit_change_minutes");
    assert("circuit_change_minutes"@.len() == 22);
    reveal_strlit("force_onion_routing");
    assert("force_onion_routing"@.len() == 19);
    reveal_strlit("use_guards_nodes");
    assert("use_guards_nodes"@.len() == 16);
    reveal_strlit("auto_lock_enabled");
    assert("auto_lock_enabled"@.len() == 17);
    reveal_strlit("auto_lock_timeout");
    assert("auto_lock_timeout"@.len() == 17);
    reveal_strlit("wipe_after_failed_attempts");
    assert("wipe_after_failed_attempts"@.len() == 26);
    reveal_strlit("max_failed_attempts");
    assert("max_failed_attempts"@.len() == 19);
    reveal_strlit("secure_delete_messages");
    assert("secure_delete_messages"@.len() == 22);
    reveal_strlit("require_safety_numbers");
    assert("require_safety_numbers"@.len() == 22);
    reveal_strlit("warn_identity_change");
    assert("warn_identity_change"@.len() == 20);
    reveal_strlit("auto_accept_new_keys");
    assert("auto_accept_new_keys"@.len() == 20);
    reveal_strlit("verify_all_devices");
    assert("verify_all_devices"@.len() == 18);
    reveal_strlit("allow_multi_device");
    assert("allow_multi_device"@.len() == 18);
    reveal_strlit("max_linked_devices");
    assert("max_linked_devices"@.len() == 18);
    reveal_strlit("sync_read_receipts");
    assert("sync_read_receipts"@.len() == 18);
    reveal_strlit("sync_contacts");
    assert("sync_contacts"@.len() == 13);
    reveal_strlit("auto_download_files");
    assert("auto_download_files"@.len() == 19);
    reveal_strlit("max_file_size_mb");
    assert("max_file_size_mb"@.len() == 16);
    reveal_strlit("compress_images");
    assert("compress_images"@.len() == 15);
    reveal_strlit("compress_quality");
    assert("compress_quality"@.len() == 16);
    reveal_strlit("auto_cleanup_old_messages");
    assert("auto_cleanup_old_messages"@.len() == 25);
    reveal_strlit("cleanup_after_days");
    assert("cleanup_after_days"@.len() == 18);
    reveal_strlit("notifications_enabled");
    assert("notifications_enabled"@.len() == 21);
    reveal_strlit("notification_sound");
    assert("notification_sound"@.len() == 18);
    reveal_strlit("notification_preview");
    assert("notification_preview"@.len() == 20);
    reveal_strlit("notify_mentions_only");
    assert("notify_mentions_only"@.len() == 20);
    reveal_strlit("encrypted_backup_enabled");
    assert("encrypted_backup_enabled"@.len() == 24);
    reveal_strlit("backup_frequency");
    assert("backup_frequency"@.len() == 16);
    reveal_strlit("backup_location");
    assert("backup_location"@.len() == 15);
    reveal_strlit("include_media_in_backup");
    assert("include_media_in_backup"@.len() == 23);
    reveal_strlit("connection_timeout_seconds");
    assert("connection_timeout_seconds"@.len() == 26);
    reveal_strlit("max_retry_attempts");
    assert("max_retry_attempts"@.len() == 18);
    reveal_strlit("use_websocket_compression");
    assert("use_websocket_compression"@.len() == 25);
    reveal_strlit("keepalive_interval_seconds");
    assert("keepalive_interval_seconds"@.len() == 26);
    reveal_strlit("use_obfuscation");
    assert("use_obfuscation"@.len() == 15);
    reveal_strlit("quantum_resistant_mode");
    assert("quantum_resistant_mode"@.len() == 22);
    reveal_strlit("paranoid_mode");
    assert("paranoid_mode"@.len() == 13);
    let f = field_names_spec();
    assert forall|i: int| 0 <= i < f.len() implies field_position(#[trigger] f[i]) == i by {
        if i == 0 {
            assert(field_position(f[0]) == 0);
        } else if i == 1 {
            assert(field_position(f[1]) == 1);
        } else if i == 2 {
            assert(field_position(f[2]) == 2);
        } else if i == 3 {
            assert(field_position(f[3]) == 3);
        } else if i == 4 {
            assert(field_position(f[4]) == 4);
        } else if i == 5 {
            assert("key_rotation_enabled"@[0] != "message_bubble_style"@[0]);
            assert(field_position(f[5]) == 5);
        } else if i == 6 {
            assert(field_position(f[6]) == 6);
        } else if i == 7 {
            assert(field_position(f[7]) == 7);
        } else if i == 8 {
            assert(field_position(f[8]) == 8);
        } else if i == 9 {
            assert(field_position(f[9]) == 9);
        } else if i == 10 {
            assert(field_position(f[10]) == 10);
        } else if i == 11 {
            assert(field_position(f[11]) == 11);
        } else if i == 12 {
            assert(field_position(f[12]) == 12);
        } else if i == 13 {
            assert(field_position(f[13]) == 13);
        } else if i == 14 {
            assert(field_position(f[14]) == 14);
        } else if i == 15 {
            assert("ephemeral_after_read"@[0] != "message_bubble_style"@[0]);
            assert("ephemeral_after_read"@[0] != "key_rotation_enabled"@[0]);
            assert(field_position(f[15]) == 15);
        } else if i == 16 {
            assert("enable_message_padding"@[0] != "double_ratchet_enabled"@[0]);
            assert(field_position(f[16]) == 16);
        } else if i == 17 {
            assert("padding_size"@[0] != "compact_mode"@[0]);
            assert(field_position(f[17]) == 17);
        } else if i == 18 {
            assert("random_delay_messages"@[0] != "max_skip_message_keys"@[0]);
            assert(field_position(f[18]) == 18);
        } else if i == 19 {
            assert("max_delay_seconds"@[0] != "key_rotation_days"@[0]);
            assert(field_position(f[19]) == 19);
        } else if i == 20 {
            assert("hide_message_size"@[0] != "key_rotation_days"@[0]);
            assert("hide_message_size"@[0] != "max_delay_seconds"@[0]);
            assert(field_position(f[20]) == 20);
        } else if i == 21 {
            assert("default_relay"@[0] != "kem_algorithm"@[0]);
            assert(field_position(f[21]) == 21);
        } else if i == 22 {
            assert("use_multiple_relays"@[0] != "signature_algorithm"@[0]);
            assert(field_position(f[22]) == 22);
        } else if i == 23 {
            assert("relay_circuit_length"@[0] != "message_bubble_style"@[0]);
            assert("relay_circuit_length"@[0] != "key_rotation_enabled"@[0]);
            assert("relay_circuit_length"@[0] != "ephemeral_after_read"@[0]);
            assert(field_position(f[23]) == 23);
        } else if i == 24 {
            assert("auto_change_circuit"@[0] != "signature_algorithm"@[0]);
            assert("auto_change_circuit"@[0] != "use_multiple_relays"@[0]);
            assert(field_position(f[24]) == 24);
        } else if i == 25 {
            assert("circuit_change_minutes"@[0] != "double_ratchet_enabled"@[0]);
            assert("circuit_change_minutes"@[0] != "enable_message_padding"@[0]);
            assert(field_position(f[25]) == 25);
        } else if i == 26 {
            assert("force_onion_routing"@[0] != "signature_algorithm"@[0]);
            assert("force_onion_routing"@[0] != "use_multiple_relays"@[0]);
            assert("force_onion_routing"@[0] != "auto_change_circuit"@[0]);
            assert(field_position(f[26]) == 26);
        } else if i == 27 {
            assert("use_guards_nodes"@[4] != "use_post_quantum"@[4]);
            assert(field_position(f[27]) == 27);
        } else if i == 28 {
            assert("auto_lock_enabled"@[0] != "key_rotation_days"@[0]);
            assert("auto_lock_enabled"@[0] != "max_delay_seconds"@[0]);
            assert("auto_lock_enabled"@[0] != "hide_message_size"@[0]);
            assert(field_position(f[28]) == 28);
        } else if i == 29 {
            assert("auto_lock_timeout"@[0] != "key_rotation_days"@[0]);
            assert("auto_lock_timeout"@[0] != "max_delay_seconds"@[0]);
            assert("auto_lock_timeout"@[0] != "hide_message_size"@[0]);
            assert("auto_lock_timeout"@[10] != "auto_lock_enabled"@[10]);
            assert(field_position(f[29]) == 29);
        } else if i == 30 {
            assert("wipe_after_failed_attempts"@[0] != "ephemeral_messages_default"@[0]);
            assert(field_position(f[30]) == 30);
        } else if i == 31 {
            assert("max_failed_attempts"@[0] != "signature_algorithm"@[0]);
            assert("max_failed_attempts"@[0] != "use_multiple_relays"@[0]);
            assert("max_failed_attempts"@[0] != "auto_change_circuit"@[0]);
            assert("max_failed_attempts"@[0] != "force_onion_routing"@[0]);
            assert(field_position(f[31]) == 31);
        } else if i == 32 {
            assert("secure_delete_messages"@[0] != "double_ratchet_enabled"@[0]);
            assert("secure_delete_messages"@[0] != "enable_message_padding"@[0]);
            assert("secure_delete_messages"@[0] != "circuit_change_minutes"@[0]);
            assert(field_position(f[32]) == 32);
        } else if i == 33 {
            assert("require_safety_numbers"@[0] != "double_ratchet_enabled"@[0]);
            assert("require_safety_numbers"@[0] != "enable_message_padding"@[0]);
            assert("require_safety_numbers"@[0] != "circuit_change_minutes"@[0]);
            assert("require_safety_numbers"@[0] != "secure_delete_messages"@[0]);
            assert(field_position(f[33]) == 33);
        } else if i == 34 {
            assert("warn_identity_change"@[0] != "message_bubble_style"@[0]);
            assert("warn_identity_change"@[0] != "key_rotation_enabled"@[0]);
            assert("warn_identity_change"@[0] != "ephemeral_after_read"@[0]);
            assert("warn_identity_change"@[0] != "relay_circuit_length"@[0]);
            assert(field_position(f[34]) == 34);
        } else if i == 35 {
            assert("auto_accept_new_keys"@[0] != "message_bubble_style"@[0]);
            assert("auto_accept_new_keys"@[0] != "key_rotation_enabled"@[0]);
            assert("auto_accept_new_keys"@[0] != "ephemeral_after_read"@[0]);
            assert("auto_accept_new_keys"@[0] != "relay_circuit_length"@[0]);
            assert("auto_accept_new_keys"@[0] != "warn_identity_change"@[0]);
            assert(field_position(f[35]) == 35);
        } else if i == 36 {
            assert(field_position(f[36]) == 36);
        } else if i == 37 {
            assert("allow_multi_device"@[0] != "verify_all_devices"@[0]);
            assert(field_position(f[37]) == 37);
        } else if i == 38 {
            assert("max_linked_devices"@[0] != "verify_all_devices"@[0]);
            assert("max_linked_devices"@[0] != "allow_multi_device"@[0]);
            assert(field_position(f[38]) == 38);
        } else if i == 39 {
            assert("sync_read_receipts"@[0] != "verify_all_devices"@[0]);
            assert("sync_read_receipts"@[0] != "allow_multi_device"@[0]);
            assert("sync_read_receipts"@[0] != "max_linked_devices"@[0]);
            assert(field_position(f[39]) == 39);
        } else if i == 40 {
            assert("sync_contacts"@[0] != "kem_algorithm"@[0]);
            assert("sync_contacts"@[0] != "default_relay"@[0]);
            assert(field_position(f[40]) == 40);
        } else if i == 41 {
            assert("auto_download_files"@[0] != "signature_algorithm"@[0]);
            assert("auto_download_files"@[0] != "use_multiple_relays"@[0]);
            assert("auto_download_files"@[5] != "auto_change_circuit"@[5]);
            assert("auto_download_files"@[0] != "force_onion_routing"@[0]);
            assert("auto_download_files"@[0] != "max_failed_attempts"@[0]);
            assert(field_position(f[41]) == 41);
        } else if i == 42 {
            assert("max_file_size_mb"@[0] != "use_post_quantum"@[0]);
            assert("max_file_size_mb"@[0] != "use_guards_nodes"@[0]);
            assert(field_position(f[42]) == 42);
        } else if i == 43 {
            assert(field_position(f[43]) == 43);
        } else if i == 44 {
            assert("compress_quality"@[0] != "use_post_quantum"@[0]);
            assert("compress_quality"@[0] != "use_guards_nodes"@[0]);
            assert("compress_quality"@[0] != "max_file_size_mb"@[0]);
            assert(field_position(f[44]) == 44);
        } else if i == 45 {
            assert(field_position(f[45]) == 45);
        } else if i == 46 {
            assert("cleanup_after_days"@[0] != "verify_all_devices"@[0]);
            assert("cleanup_after_days"@[0] != "allow_multi_device"@[0]);
            assert("cleanup_after_days"@[0] != "max_linked_devices"@[0]);
            assert("cleanup_after_days"@[0] != "sync_read_receipts"@[0]);
            assert(field_position(f[46]) == 46);
        } else if i == 47 {
            assert("notifications_enabled"@[0] != "max_skip_message_keys"@[0]);
            assert("notifications_enabled"@[0] != "random_delay_messages"@[0]);
            assert(field_position(f[47]) == 47);
        } else if i == 48 {
            assert("notification_sound"@[0] != "verify_all_devices"@[0]);
            assert("notification_sound"@[0] != "allow_multi_device"@[0]);
            assert("notification_sound"@[0] != "max_linked_devices"@[0]);
            assert("notification_sound"@[0] != "sync_read_receipts"@[0]);
            assert("notification_sound"@[0] != "cleanup_after_days"@[0]);
            assert(field_position(f[48]) == 48);
        } else if i == 49 {
            assert("notification_preview"@[0] != "message_bubble_style"@[0]);
            assert("notification_preview"@[0] != "key_rotation_enabled"@[0]);
            assert("notification_preview"@[0] != "ephemeral_after_read"@[0]);
            assert("notification_preview"@[0] != "relay_circuit_length"@[0]);
            assert("notification_preview"@[0] != "warn_identity_change"@[0]);
            assert("notification_preview"@[0] != "auto_accept_new_keys"@[0]);
            assert(field_position(f[49]) == 49);
        } else if i == 50 {
            assert("notify_mentions_only"@[0] != "message_bubble_style"@[0]);
            assert("notify_mentions_only"@[0] != "key_rotation_enabled"@[0]);
            assert("notify_mentions_only"@[0] != "ephemeral_after_read"@[0]);
            assert("notify_mentions_only"@[0] != "relay_circuit_length"@[0]);
            assert("notify_mentions_only"@[0] != "warn_identity_change"@[0]);
            assert("notify_mentions_only"@[0] != "auto_accept_new_keys"@[0]);
            assert("notify_mentions_only"@[5] != "notification_preview"@[5]);
            assert(field_position(f[50]) == 50);
        } else if i == 51 {
            assert("encrypted_backup_enabled"@[0] != "ratchet_on_every_message"@[0]);
            assert(field_position(f[51]) == 51);
        } else if i == 52 {
            assert("backup_frequency"@[0] != "use_post_quantum"@[0]);
            assert("backup_frequency"@[0] != "use_guards_nodes"@[0]);
            assert("backup_frequency"@[0] != "max_file_size_mb"@[0]);
            assert("backup_frequency"@[0] != "compress_quality"@[0]);
            assert(field_position(f[52]) == 52);
        } else if i == 53 {
            assert("backup_location"@[0] != "compress_images"@[0]);
            assert(field_position(f[53]) == 53);
        } else if i == 54 {
            assert("include_media_in_backup"@[0] != "default_ephemeral_timer"@[0]);
            assert(field_position(f[54]) == 54);
        } else if i == 55 {
            assert("connection_timeout_seconds"@[0] != "ephemeral_messages_default"@[0]);
            assert("connection_timeout_seconds"@[0] != "wipe_after_failed_attempts"@[0]);
            assert(field_position(f[55]) == 55);
        } else if i == 56 {
            assert("max_retry_attempts"@[0] != "verify_all_devices"@[0]);
            assert("max_retry_attempts"@[0] != "allow_multi_device"@[0]);
            assert("max_retry_attempts"@[4] != "max_linked_devices"@[4]);
            assert("max_retry_attempts"@[0] != "sync_read_receipts"@[0]);
            assert("max_retry_attempts"@[0] != "cleanup_after_days"@[0]);
            assert("max_retry_attempts"@[0] != "notification_sound"@[0]);
            assert(field_position(f[56]) == 56);
        } else if i == 57 {
            assert("use_websocket_compression"@[0] != "auto_cleanup_old_messages"@[0]);
            assert(field_position(f[57]) == 57);
        } else if i == 58 {
            assert("keepalive_interval_seconds"@[0] != "ephemeral_messages_default"@[0]);
            assert("keepalive_interval_seconds"@[0] != "wipe_after_failed_attempts"@[0]);
            assert("keepalive_interval_seconds"@[0] != "connection_timeout_seconds"@[0]);
            assert(field_position(f[58]) == 58);
        } else if i == 59 {
            assert("use_obfuscation"@[0] != "compress_images"@[0]);
            assert("use_obfuscation"@[0] != "backup_location"@[0]);
            assert(field_position(f[59]) == 59);
        } else if i == 60 {
            assert("quantum_resistant_mode"@[0] != "double_ratchet_enabled"@[0]);
            assert("quantum_resistant_mode"@[0] != "enable_message_padding"@[0]);
            assert("quantum_resistant_mode"@[0] != "circuit_change_minutes"@[0]);
            assert("quantum_resistant_mode"@[0] != "secure_delete_messages"@[0]);
            assert("quantum_resistant_mode"@[0] != "require_safety_numbers"@[0]);
            assert(field_position(f[60]) == 60);
        } else if i == 61 {
            assert("paranoid_mode"@[0] != "kem_algorithm"@[0]);
            assert("paranoid_mode"@[0] != "default_relay"@[0]);
            assert("paranoid_mode"@[0] != "sync_contacts"@[0]);
            assert(field_position(f[61]) == 61);
        }
    }
    assert forall|i: int, j: int| 0 <= i < f.len() && 0 <= j < f.len() && i != j implies f[i]
        != f[j] by {
        assert(field_position(f[i]) == i);
        assert(field_position(f[j]) == j);
    }
}

impl AppSettings {
    /// The names of all settings, category by category.
    pub fn field_names() -> (r: Vec<&'static str>)
        ensures
            r@.len() == field_names_spec().len(),
            forall|i: int| 0 <= i < r@.len() ==> #[trigger] r@[i]@ == field_names_spec()[i],
            field_names_spec().len() == 62,
            field_names_spec().no_duplicates(),
    {
        proof {
            lemma_field_names_distinct();
        }
        let r = vec![
            "theme",
            "language",
            "font_size",
            "compact_mode",
            "message_bubble_style",
            "key_rotation_enabled",
            "key_rotation_days",
            "use_post_quantum",
            "signature_algorithm",
            "kem_algorithm",
            "double_ratchet_enabled",
            "max_skip_message_keys",
            "ratchet_on_every_message",
            "ephemeral_messages_default",
            "default_ephemeral_timer",
            "ephemeral_after_read",
            "enable_message_padding",
            "padding_size",
            "random_delay_messages",
            "max_delay_seconds",
            "hide_message_size",
            "default_relay",
            "use_multiple_relays",
            "relay_circuit_length",
            "auto_change_circuit",
            "circuit_change_minutes",
            "force_onion_routing",
            "use_guards_nodes",
            "auto_lock_enabled",
            "auto_lock_timeout",
            "wipe_after_failed_attempts",
            "max_failed_attempts",
            "secure_delete_messages",
            "require_safety_numbers",
            "warn_identity_change",
            "auto_accept_new_keys",
            "verify_all_devices",
            "allow_multi_device",
            "max_linked_devices",
            "sync_read_receipts",
            "sync_contacts",
            "auto_download_files",
            "max_file_size_mb",
            "compress_images",
            "compress_quality",
            "auto_cleanup_old_messages",
            "cleanup_after_days",
            "notifications_enabled",
            "notification_sound",
            "notification_preview",
            "notify_mentions_only",
            "encrypted_backup_enabled",
            "backup_frequency",
            "backup_location",
            "include_media_in_backup",
            "connection_timeout_seconds",
            "max_retry_attempts",
            "use_websocket_compression",
            "keepalive_interval_seconds",
            "use_obfuscation",
            "quantum_resistant_mode",
            "paranoid_mode",
        ];
        assert forall|i: int| 0 <= i < r@.len() implies #[trigger] r@[i]@ == field_names_spec()[i] by {
        }
        r
    }
}

/// A saved setting value, typed from the text the interface sends.
#[derive(Debug, Clone, PartialEq, Eq)]
pub enum SettingValue {
    Bool(bool),
    Number(i64),
    Text(String),
}

/// Whether `r` is the typed form of the setting text `value`: `true` and
/// `false` are booleans, a text that reads as a signed 64-bit number is that
/// number, and anything else stays text.
pub open spec fn typed_value_of(value: Seq<char>, r: SettingValue) -> bool {
    if value == "true"@ {
        r == SettingValue::Bool(true)
    } else if value == "false"@ {
        r == SettingValue::Bool(false)
    } else {
        match parse_i64_spec(value) {
            Some(n) => r == SettingValue::Number(n),
            None => r matches SettingValue::Text(t) && t@ == value,
        }
    }
}

/// Types a saved setting text.
pub fn typed_setting_value(value: &str) -> (r: SettingValue)
    ensures
        typed_value_of(value@, r),
{
    if str_eq(value, "true") {
        SettingValue::Bool(true)
    } else if str_eq(value, "false") {
        SettingValue::Bool(false)
    } else {
        match parse_i64(value) {
            Some(n) => SettingValue::Number(n),
            None => SettingValue::Text(value.to_owned()),
        }
    }
}

/// The text a setting value is read back as.
pub open spec fn rendered_value_spec(v: SettingValue) -> Seq<char> {
    match v {
        SettingValue::Bool(b) => if b {
            "true"@
        } else {
            "false"@
        },
        SettingValue::Number(n) => signed_decimal_spec(n as int),
        SettingValue::Text(t) => t@,
    }
}

/// The text a setting value is read back as.
pub fn render_setting_value(v: &SettingValue) -> (r: String)
    ensures
        r@ == rendered_value_spec(*v),
{
    match v {
        SettingValue::Bool(b) => {
            if *b {
                "true".to_owned()
            } else {
                "false".to_owned()
            }
        },
        SettingValue::Number(n) => {
            let mut s = String::new();
            push_signed_decimal(&mut s, *n);
            s
        },
        SettingValue::Text(t) => t.as_str().to_owned(),
    }
}

/// Saving a setting and reading it back gives the saved text, for every
/// text but a number written otherwise than in its plain decimal form (such
/// as `007` or `+5`, which read back as `7` and `5`).
pub proof fn lemma_setting_roundtrip(value: Seq<char>, typed: SettingValue)
    requires
        typed_value_of(value, typed),
        parse_i64_spec(value) matches Some(n) ==> signed_decimal_spec(n as int) == value,
    ensures
        rendered_value_spec(typed) == value,
{
}

} // verus!
