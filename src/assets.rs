//! The three pages of the asset server, and the values put into them.
use crate::decimal::{decimal, decimal_text, digits_value, lemma_decimal_value};
use crate::digest::{byte_values, bytes_array_text, digest_array_text, lemma_bytes_array_round_trip, parse_array_text};
use vstd::prelude::*;
use vstd::string::StringExecFns;

verus! {

/// The loopback port that the asset server binds.
pub const HTTP_PORT: u16 = 8080;

/// The page at `/` up to the echo server's port.
pub const INDEX_HEAD: &'static str = r#"
<!doctype html>
<html lang="en">
  <title>WTransport-Example</title>
  <meta charset="utf-8">
  <script src="client.js"></script>
  <link rel="stylesheet" href="style.css">
  <meta name="viewport" content="width=device-width, initial-scale=1">
  <body>

    <h1>WTransport Example</h1>

    <div>
      <h2>Establish WebTransport connection</h2>
      <div class="input-line">
        <label for="url">URL:</label>
        <input type="text" name="url" id="url" value="https://localhost:"#;

/// The page at `/` after the echo server's port.
pub const INDEX_TAIL: &'static str = r#"/">
        <input type="button" id="connect" value="Connect" onclick="connect()">
      </div>
    </div>

    <div>
      <h2>Send data over WebTransport</h2>
      <form name="sending">
        <textarea name="data" id="data"></textarea>
        <div>
          <input type="radio" name="sendtype" value="datagram" id="datagram" checked>
          <label for="datagram">Send a datagram</label>
        </div>
        <div>
          <input type="radio" name="sendtype" value="unidi" id="unidi-stream">
          <label for="unidi-stream">Open a unidirectional stream</label>
        </div>
        <div>
          <input type="radio" name="sendtype" value="bidi" id="bidi-stream">
          <label for="bidi-stream">Open a bidirectional stream</label>
        </div>
        <input type="button" id="send" name="send" value="Send data" disabled onclick="sendData()">
      </form>
    </div>

    <div>
      <h2>Event log</h2>
      <ul id="event-log">
      </ul>
    </div>

  </body>
</html>
"#;

/// The style sheet at `/style.css`.
pub const STYLE_DATA: &'static str = r#"
body {
  font-family: sans-serif;
}

h1 {
  margin: 0 auto;
  width: fit-content;
}

h2 {
  border-bottom: 1px dotted #333;
  font-size: 120%;
  font-weight: normal;
  padding-bottom: 0.2em;
  padding-top: 0.5em;
}

code {
  background-color: #eee;
}

input[type=text], textarea {
  font-family: monospace;
}

#top {
  display: flex;
  flex-direction: row-reverse;
  flex-wrap: wrap;
  justify-content: center;
}

#explanation {
  border: 1px dotted black;
  font-size: 90%;
  height: fit-content;
  margin-bottom: 1em;
  padding: 1em;
  width: 13em;
}

#tool {
  flex-grow: 1;
  margin: 0 auto;
  max-width: 26em;
  padding: 0 1em;
  width: 26em;
}

.input-line {
  display: flex;
}

.input-line input[type=text] {
  flex-grow: 1;
  margin: 0 0.5em;
}

textarea {
  height: 3em;
  width: 100%;
}

#send {
  margin-top: 0.5em;
  width: 15em;
}

#event-log {
  border: 1px dotted black;
  font-family: monospace;
  height: 12em;
  overflow: scroll;
  padding-bottom: 1em;
  padding-top: 1em;
}

.log-error {
  color: darkred;
}

#explanation ul {
  padding-left: 1em;
}
"#;

/// The script at `/client.js` up to the certificate digest.
pub const CLIENT_HEAD: &'static str = r#"
// Adds an entry to the event log on the page, optionally applying a specified
// CSS class.

const HASH = new Uint8Array("#;

/// The script at `/client.js` after the certificate digest.
pub const CLIENT_TAIL: &'static str = r#");

let currentTransport, streamNumber, currentTransportDatagramWriter;

// "Connect" button handler.
async function connect() {
  const url = document.getElementById('url').value;
  try {
    var transport = new WebTransport(url, { serverCertificateHashes: [ { algorithm: "sha-256", value: HASH.buffer } ] } );
    addToEventLog('Initiating connection...');
  } catch (e) {
    addToEventLog('Failed to create connection object. ' + e, 'error');
    return;
  }

  try {
    await transport.ready;
    addToEventLog('Connection ready.');
  } catch (e) {
    addToEventLog('Connection failed. ' + e, 'error');
    return;
  }

  transport.closed
      .then(() => {
        addToEventLog('Connection closed normally.');
      })
      .catch(() => {
        addToEventLog('Connection closed abruptly.', 'error');
      });

  currentTransport = transport;
  streamNumber = 1;
  try {
    currentTransportDatagramWriter = transport.datagrams.writable.getWriter();
    addToEventLog('Datagram writer ready.');
  } catch (e) {
    addToEventLog('Sending datagrams not supported: ' + e, 'error');
    return;
  }
  readDatagrams(transport);
  acceptUnidirectionalStreams(transport);
  document.forms.sending.elements.send.disabled = false;
  document.getElementById('connect').disabled = true;
}

// "Send data" button handler.
async function sendData() {
  let form = document.forms.sending.elements;
  let encoder = new TextEncoder('utf-8');
  let rawData = sending.data.value;
  let data = encoder.encode(rawData);
  let transport = currentTransport;
  try {
    switch (form.sendtype.value) {
      case 'datagram':
        await currentTransportDatagramWriter.write(data);
        addToEventLog('Sent datagram: ' + rawData);
        break;
      case 'unidi': {
        let stream = await transport.createUnidirectionalStream();
        let writer = stream.getWriter();
        await writer.write(data);
        await writer.close();
        addToEventLog('Sent a unidirectional stream with data: ' + rawData);
        break;
      }
      case 'bidi': {
        let stream = await transport.createBidirectionalStream();
        let number = streamNumber++;
        readFromIncomingStream(stream.readable, number);

        let writer = stream.writable.getWriter();
        await writer.write(data);
        await writer.close();
        addToEventLog(
            'Opened bidirectional stream #' + number +
            ' with data: ' + rawData);
        break;
      }
    }
  } catch (e) {
    addToEventLog('Error while sending data: ' + e, 'error');
  }
}

// Reads datagrams from |transport| into the event log until EOF is reached.
async function readDatagrams(transport) {
  try {
    var reader = transport.datagrams.readable.getReader();
    addToEventLog('Datagram reader ready.');
  } catch (e) {
    addToEventLog('Receiving datagrams not supported: ' + e, 'error');
    return;
  }
  let decoder = new TextDecoder('utf-8');
  try {
    while (true) {
      const { value, done } = await reader.read();
      if (done) {
        addToEventLog('Done reading datagrams!');
        return;
      }
      let data = decoder.decode(value);
      addToEventLog('Datagram received: ' + data);
    }
  } catch (e) {
    addToEventLog('Error while reading datagrams: ' + e, 'error');
  }
}

async function acceptUnidirectionalStreams(transport) {
  let reader = transport.incomingUnidirectionalStreams.getReader();
  try {
    while (true) {
      const { value, done } = await reader.read();
      if (done) {
        addToEventLog('Done accepting unidirectional streams!');
        return;
      }
      let stream = value;
      let number = streamNumber++;
      addToEventLog('New incoming unidirectional stream #' + number);
      readFromIncomingStream(stream, number);
    }
  } catch (e) {
    addToEventLog('Error while accepting streams: ' + e, 'error');
  }
}

async function readFromIncomingStream(stream, number) {
  let decoder = new TextDecoderStream('utf-8');
  let reader = stream.pipeThrough(decoder).getReader();
  try {
    while (true) {
      const { value, done } = await reader.read();
      if (done) {
        addToEventLog('Stream #' + number + ' closed');
        return;
      }
      let data = value;
      addToEventLog('Received data on stream #' + number + ': ' + data);
    }
  } catch (e) {
    addToEventLog(
        'Error while reading from stream #' + number + ': ' + e, 'error');
    addToEventLog('    ' + e.message);
  }
}

function addToEventLog(text, severity = 'info') {
  let log = document.getElementById('event-log');
  let mostRecentEntry = log.lastElementChild;
  let entry = document.createElement('li');
  entry.innerText = text;
  entry.className = 'log-' + severity;
  log.appendChild(entry);

  // If the most recent entry in the log was visible, scroll the log to the
  // newly added element.
  if (mostRecentEntry != null &&
      mostRecentEntry.getBoundingClientRect().top <
          log.getBoundingClientRect().bottom) {
    entry.scrollIntoView();
  }
}
"#;

/// The page at `/` for an echo server bound to `port`.
pub open spec fn index_text(port: u16) -> Seq<char> {
    INDEX_HEAD@ + decimal(port as nat) + INDEX_TAIL@
}

/// The script at `/client.js` for a certificate with the digest `digest`.
pub open spec fn client_text(digest: Seq<u8>) -> Seq<char> {
    CLIENT_HEAD@ + bytes_array_text(digest) + CLIENT_TAIL@
}

/// The three routes of the asset server.
#[derive(Clone, Copy, Debug, PartialEq, Eq, Structural)]
pub enum AssetKind {
    Index,
    Style,
    Client,
}

/// The path that serves each asset.
pub open spec fn asset_path(kind: AssetKind) -> Seq<char> {
    match kind {
        AssetKind::Index => seq!['/'],
        AssetKind::Style => seq!['/', 's', 't', 'y', 'l', 'e', '.', 'c', 's', 's'],
        AssetKind::Client => seq!['/', 'c', 'l', 'i', 'e', 'n', 't', '.', 'j', 's'],
    }
}

/// The content type that each asset is served with.
pub open spec fn asset_content_type(kind: AssetKind) -> Seq<char> {
    match kind {
        AssetKind::Index => "text/html; charset=utf-8"@,
        AssetKind::Style => "text/css"@,
        AssetKind::Client => "application/javascript"@,
    }
}

impl AssetKind {
    /// Every asset, in the order the routes are listed.
    pub fn all() -> (r: Vec<AssetKind>)
        ensures
            r@ == seq![AssetKind::Index, AssetKind::Style, AssetKind::Client],
    {
        let r = vec![AssetKind::Index, AssetKind::Style, AssetKind::Client];
        assert(r@ =~= seq![AssetKind::Index, AssetKind::Style, AssetKind::Client]);
        r
    }

    /// The path that serves this asset.
    pub fn path(&self) -> (r: &'static str)
        ensures
            r@ == asset_path(*self),
    {
        proof {
            reveal_strlit("/");
            reveal_strlit("/style.css");
            reveal_strlit("/client.js");
        }
        match self {
            AssetKind::Index => "/",
            AssetKind::Style => "/style.css",
            AssetKind::Client => "/client.js",
        }
    }

    /// The content type that this asset is served with.
    pub fn content_type(&self) -> (r: &'static str)
        ensures
            r@ == asset_content_type(*self),
    {
        match self {
            AssetKind::Index => "text/html; charset=utf-8",
            AssetKind::Style => "text/css",
            AssetKind::Client => "application/javascript",
        }
    }
}

/// What the asset server puts into its pages: the digest of the echo
/// server's certificate and the port the echo server is bound to.
pub struct Assets {
    cert_digest: [u8; 32],
    webtransport_port: u16,
}

impl Assets {
    /// The digest of the echo server's certificate.
    pub closed spec fn digest(&self) -> Seq<u8> {
        self.cert_digest@
    }

    /// The port that the echo server is bound to.
    pub closed spec fn port(&self) -> u16 {
        self.webtransport_port
    }

    pub fn new(cert_digest: [u8; 32], webtransport_port: u16) -> (r: Assets)
        ensures
            r.digest() == cert_digest@,
            r.port() == webtransport_port,
    {
        Assets { cert_digest, webtransport_port }
    }

    /// The port that the echo server is bound to.
    pub fn webtransport_port(&self) -> (r: u16)
        ensures
            r == self.port(),
    {
        self.webtransport_port
    }

    /// The page at `/`: the echo server's port, in decimal, in its URL field.
    pub fn index_html(&self) -> (r: String)
        ensures
            r@ == index_text(self.port()),
    {
        let mut r = String::from_str(INDEX_HEAD);
        let port = decimal_text(self.webtransport_port);
        r.append(port.as_str());
        r.append(INDEX_TAIL);
        r
    }

    /// The style sheet at `/style.css`.
    pub fn style_css(&self) -> (r: String)
        ensures
            r@ == STYLE_DATA@,
    {
        String::from_str(STYLE_DATA)
    }

    /// The script at `/client.js`: the certificate digest, as an array
    /// literal, is the hash the browser pins the certificate to.
    pub fn client_js(&self) -> (r: String)
        ensures
            r@ == client_text(self.digest()),
    {
        let mut r = String::from_str(CLIENT_HEAD);
        let digest = digest_array_text(&self.cert_digest);
        r.append(digest.as_str());
        r.append(CLIENT_TAIL);
        r
    }

    /// The body of the given asset.
    pub fn body(&self, kind: AssetKind) -> (r: String)
        ensures
            kind == AssetKind::Index ==> r@ == index_text(self.port()),
            kind == AssetKind::Style ==> r@ == STYLE_DATA@,
            kind == AssetKind::Client ==> r@ == client_text(self.digest()),
    {
        match kind {
            AssetKind::Index => self.index_html(),
            AssetKind::Style => self.style_css(),
            AssetKind::Client => self.client_js(),
        }
    }
}

/// The page at `/` holds the echo server's port in decimal, right after the
/// fixed text that leads up to it, and those digits denote the port.
pub proof fn lemma_index_names_port(port: u16)
    ensures
        index_text(port).subrange(
            INDEX_HEAD@.len() as int,
            (INDEX_HEAD@.len() + decimal(port as nat).len()) as int,
        ) == decimal(port as nat),
        digits_value(decimal(port as nat)) == port,
{
    lemma_decimal_value(port as nat);
    assert(index_text(port).subrange(
        INDEX_HEAD@.len() as int,
        (INDEX_HEAD@.len() + decimal(port as nat).len()) as int,
    ) =~= decimal(port as nat));
}

/// The script at `/client.js` holds the array literal of the certificate
/// digest, right after the fixed text that leads up to it, and that literal
/// reads back as the digest's bytes.
pub proof fn lemma_client_names_digest(digest: Seq<u8>)
    ensures
        client_text(digest).subrange(
            CLIENT_HEAD@.len() as int,
            (CLIENT_HEAD@.len() + bytes_array_text(digest).len()) as int,
        ) == bytes_array_text(digest),
        parse_array_text(bytes_array_text(digest)) == byte_values(digest),
{
    lemma_bytes_array_round_trip(digest);
    assert(client_text(digest).subrange(
        CLIENT_HEAD@.len() as int,
        (CLIENT_HEAD@.len() + bytes_array_text(digest).len()) as int,
    ) =~= bytes_array_text(digest));
}

} // verus!
