# ttn-ingest

Streams the stored uplinks of a The Things Network application into InfluxDB,
and renders the status screen of the gateway that sends them.

`src/` is the verified library:

- `stream`, `text`: the query, and the cutting of the answer into JSON texts
- `uplink`, `device`, `device_table`, `json`, `point`, `influx`: the points that a
  message becomes
- `cursor`, `time`: the latest `received_at`, kept across restarts
- `reconnect`, `health`, `http`, `config`: the waits between streams, the health
  endpoint and the environment
- `display`: the two lines of the OLED display

`app/` is the service around it: sockets, files, the environment, the clock, and
the display's task.

Variables: `INFLUXDB_URL`, `INFLUXDB_TOKEN` (required), `INFLUXDB_ORG`,
`INFLUXDB_BUCKET`, `TTN_APP_ID`, `TTN_API_KEY` (required), `TTN_REGION`,
`TTN_CURSOR_FILE`.
