-- One row per invoice that a POS handed in. Instants are Unix seconds, UTC.
CREATE TABLE invoices (
    id                  TEXT PRIMARY KEY NOT NULL,
    invoice_ref         TEXT NOT NULL UNIQUE,
    payload_json        TEXT NOT NULL,
    lhdn_status         TEXT NOT NULL CHECK (lhdn_status IN
        ('Pending', 'Submitted', 'Valid', 'Invalid', 'Cancelled', 'Failed')),
    lhdn_submission_uid TEXT,
    lhdn_uuid           TEXT,
    lhdn_long_id        TEXT,
    qr_url              TEXT,
    signature           TEXT,
    ubl_xml             TEXT,
    doc_digest          TEXT,
    error_json          TEXT,
    cancellation_reason TEXT,
    attempts            INTEGER NOT NULL DEFAULT 0,
    created_at          INTEGER NOT NULL,
    updated_at          INTEGER NOT NULL,
    submitted_at        INTEGER,
    validated_at        INTEGER,
    cancelled_at        INTEGER,
    cancellable_until   INTEGER,
    next_attempt_at     INTEGER
);

-- Work that waits for a worker.
CREATE TABLE outbox_events (
    id           INTEGER PRIMARY KEY AUTOINCREMENT,
    invoice_id   TEXT NOT NULL,
    kind         TEXT NOT NULL CHECK (kind IN ('submit', 'poll', 'cancel')),
    available_at INTEGER NOT NULL,
    attempts     INTEGER NOT NULL DEFAULT 0,
    last_error   TEXT
);

CREATE INDEX outbox_events_due ON outbox_events (kind, available_at);

CREATE INDEX outbox_events_of_invoice ON outbox_events (invoice_id);

-- The access token of each LHDN environment.
CREATE TABLE oauth_tokens (
    env          TEXT PRIMARY KEY NOT NULL,
    access_token TEXT NOT NULL,
    expires_at   INTEGER NOT NULL
);
